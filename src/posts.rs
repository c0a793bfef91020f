use serde_json::Value;
use vstd::prelude::*;

verus! {

/// serde_json's JSON value, carried through opaquely; what the logic reads
/// of it comes from `member` and `text` below.
#[verifier::external_type_specification]
#[verifier::external_body]
pub struct ExValue(serde_json::Value);

/// The member `key` of a JSON value, as `serde_json::Value::get` finds it.
pub uninterp spec fn json_member(v: Value, key: Seq<char>) -> Option<Value>;

/// The text of a JSON value, as `serde_json::Value::as_str` finds it.
pub uninterp spec fn json_text(v: Value) -> Option<Seq<char>>;

/// The title of a post: the text of its `title` member, if it has one that
/// is a string.
pub open spec fn post_title(post: Value) -> Option<Seq<char>> {
    match json_member(post, "title"@) {
        Some(member) => json_text(member),
        None => None,
    }
}

/// The titles in `titles`, in order, separated by `" + "`.
pub open spec fn joined(titles: Seq<Seq<char>>) -> Seq<char>
    decreases titles.len(),
{
    if titles.len() == 0 {
        Seq::empty()
    } else if titles.len() == 1 {
        titles[0]
    } else {
        joined(titles.drop_last()) + " + "@ + titles.last()
    }
}

/// Relies on `serde_json::Value::get` with a string key: the member of an
/// object under that key; `None` for a missing key or a value that is no
/// object.
#[verifier::external_body]
fn member<'a>(v: &'a Value, key: &str) -> (r: Option<&'a Value>)
    ensures
        match r {
            Some(m) => json_member(*v, key@) == Some(*m),
            None => json_member(*v, key@) is None,
        },
{
    v.get(key)
}

/// Relies on `serde_json::Value::as_str`: the text of a string value;
/// `None` for any other value.
#[verifier::external_body]
fn text(v: &Value) -> (r: Option<&str>)
    ensures
        match r {
            Some(s) => json_text(*v) == Some(s@),
            None => json_text(*v) is None,
        },
{
    v.as_str()
}

/// The title of `post`, or `None` where it has no `title` member that is a
/// string.
pub fn title_of(post: &Value) -> (r: Option<&str>)
    ensures
        match r {
            Some(t) => post_title(*post) == Some(t@),
            None => post_title(*post) is None,
        },
{
    proof {
        reveal_strlit("title");
    }
    match member(post, "title") {
        Some(m) => text(m),
        None => None,
    }
}

/// The number of characters in `title`.
pub fn count_chars(title: &str) -> (r: usize)
    ensures
        r == title@.len(),
{
    title.unicode_len()
}

/// The number of characters in the title of the post `response`, or `None`
/// where it has no title.
pub fn count_chars_of_http_response(response: &Value) -> (r: Option<usize>)
    ensures
        match post_title(*response) {
            Some(t) => r == Some(t.len() as usize),
            None => r is None,
        },
{
    match title_of(response) {
        Some(t) => Some(count_chars(t)),
        None => None,
    }
}

/// The titles in `titles`, in order, separated by `" + "`.
pub fn join_titles(titles: &Vec<&str>) -> (r: String)
    ensures
        r@ == joined(titles@.map_values(|t: &str| t@)),
{
    let ghost views = titles@.map_values(|t: &str| t@);
    let mut out = String::new();
    let mut i: usize = 0;
    while i < titles.len()
        invariant
            i <= titles.len(),
            views == titles@.map_values(|t: &str| t@),
            out@ == joined(views.take(i as int)),
        decreases titles.len() - i,
    {
        proof {
            reveal_strlit(" + ");
            assert(views.take(i as int + 1).drop_last() =~= views.take(i as int));
        }
        if i > 0 {
            out.append(" + ");
        }
        out.append(titles[i]);
        i = i + 1;
    }
    assert(views.take(titles.len() as int) =~= views);
    out
}

/// The titles of the posts `first` and `second`, separated by `" + "`, or
/// `None` where either has no title.
pub fn concat_response_titles(first: &Value, second: &Value) -> (r: Option<String>)
    ensures
        match (post_title(*first), post_title(*second)) {
            (Some(a), Some(b)) => r matches Some(s) && s@ == a + " + "@ + b,
            _ => r is None,
        },
{
    match (title_of(first), title_of(second)) {
        (Some(a), Some(b)) => {
            let titles = vec![a, b];
            let r = join_titles(&titles);
            proof {
                let views = titles@.map_values(|t: &str| t@);
                assert(views.drop_last() =~= seq![a@]);
                assert(joined(seq![a@]) == a@);
                assert(views.last() == b@);
            }
            Some(r)
        },
        _ => None,
    }
}

} // verus!
