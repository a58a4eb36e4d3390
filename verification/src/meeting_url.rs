//! Reading the number and the passcode of a meeting out of its address.
//!
//! Two forms are understood. In the first the number is the second segment
//! of the address's path and the passcode is the value of `pwd` in its
//! query: `https://app.zoom.us/wc/81561946371/start?pwd=aBMNe`. In the
//! second the passcode follows the address in words:
//! `https://us06web.zoom.us/j/85636588041 (Passcode: 718843)`.
use vstd::prelude::*;
use vstd::string::StrSliceExecFns;

use crate::text::{
    after_last, chars_of, end_trimmed, find_first, is_first, matches_at, occurs_at, same_text,
    start_after_last, trim_end,
};

verus! {

/// What this library reads of a parsed address: the segments of its path and
/// the pairs of its query, both in their order.
#[derive(Debug, Clone)]
pub struct UrlParts {
    /// The segments of the path, still percent-encoded; `None` for an
    /// address that cannot be a base and so has no path of segments.
    pub path_segments: Option<Vec<String>>,
    /// The keys and values of the query, decoded.
    pub query_pairs: Vec<(String, String)>,
}

impl UrlParts {
    /// The segments of the path as texts.
    pub open spec fn segments(&self) -> Option<Seq<Seq<char>>> {
        match self.path_segments {
            Some(list) => Some(Seq::new(list@.len(), |i: int| list@[i]@)),
            None => None,
        }
    }

    /// The pairs of the query as texts.
    pub open spec fn pairs(&self) -> Seq<(Seq<char>, Seq<char>)> {
        Seq::new(
            self.query_pairs@.len(),
            |i: int|
                {
                    let (key, value) = self.query_pairs@[i];
                    (key@, value@)
                },
        )
    }
}

/// The path segments and the query pairs of the address `text`, as the
/// `url` crate parses it; `None` where it does not parse `text` as an
/// absolute address. The segments are `None` where the crate gives none.
pub uninterp spec fn url_parts(text: Seq<char>) -> Option<(Option<Seq<Seq<char>>>, Seq<(Seq<char>, Seq<char>)>)>;

/// Parses `meeting_url` with `url::Url::parse` and reads the parsed address
/// with `Url::path_segments` and `Url::query_pairs`.
///
/// The contract claims only that the outcome is a function of the text:
/// `None` where `Url::parse` fails, else the segments that `path_segments`
/// gives, if it gives any, and the decoded pairs, both as [`url_parts`]
/// names them.
#[verifier::external_body]
fn split_url(meeting_url: &str) -> (r: Option<UrlParts>)
    ensures
        match r {
            Some(parts) => url_parts(meeting_url@) == Some((parts.segments(), parts.pairs())),
            None => url_parts(meeting_url@) is None,
        },
{
    let parsed = url::Url::parse(meeting_url).ok()?;
    let path_segments = parsed.path_segments().map(|c| c.map(String::from).collect());
    let query_pairs = parsed.query_pairs().into_owned().collect();
    Some(UrlParts { path_segments, query_pairs })
}

/// Whether `at` is the place of the last pair of `pairs` with the key `key`.
pub open spec fn is_last_with_key(pairs: Seq<(Seq<char>, Seq<char>)>, key: Seq<char>, at: int) -> bool {
    &&& 0 <= at < pairs.len()
    &&& pairs[at].0 == key
    &&& forall|j: int| at < j < pairs.len() ==> pairs[j].0 != key
}

/// The value that a query gives to `key`: that of the last pair with this
/// key, if there is one.
pub open spec fn value_of(pairs: Seq<(Seq<char>, Seq<char>)>, key: Seq<char>) -> Option<Seq<char>> {
    if exists|at: int| is_last_with_key(pairs, key, at) {
        Some(pairs[choose|at: int| is_last_with_key(pairs, key, at)].1)
    } else {
        None
    }
}

/// The meeting in the form of a path and a query: the number is the second
/// segment of the path, the passcode the value of `pwd`. Both must be there;
/// an address without a path of segments has no number.
pub open spec fn query_form(
    segments: Option<Seq<Seq<char>>>,
    pairs: Seq<(Seq<char>, Seq<char>)>,
) -> Option<(Seq<char>, Seq<char>)> {
    match segments {
        Some(list) => if list.len() >= 2 && value_of(pairs, "pwd"@) is Some {
            Some((list[1], value_of(pairs, "pwd"@)->0))
        } else {
            None
        },
        None => None,
    }
}

/// The meeting in the form of an address followed by words. The text is
/// cut at its first space. The number is what stands behind the last `/` of
/// the first part. The second part must begin with `(Passcode:`; the
/// passcode is what follows, without the `)` at its end.
pub open spec fn passcode_form(text: Seq<char>) -> Option<(Seq<char>, Seq<char>)> {
    if exists|at: int| is_first(text, ' ', at) {
        let at = choose|at: int| is_first(text, ' ', at);
        let words = text.skip(at + 1);
        let opening = "(Passcode:"@;
        if occurs_at(words, opening, 0) {
            Some((after_last(text.take(at), '/'), trim_end(words.skip(opening.len() as int), ')')))
        } else {
            None
        }
    } else {
        None
    }
}

/// The number and the passcode that the address `text` holds, given what
/// parsing made of it: nothing where it did not parse, else what the form
/// of a path and a query gives, else what the form with words gives.
pub open spec fn meeting_in(
    text: Seq<char>,
    parts: Option<(Option<Seq<Seq<char>>>, Seq<(Seq<char>, Seq<char>)>)>,
) -> Option<(Seq<char>, Seq<char>)> {
    match parts {
        None => None,
        Some((segments, pairs)) => match query_form(segments, pairs) {
            Some(found) => Some(found),
            None => passcode_form(text),
        },
    }
}

/// The texts of an optional pair of strings.
pub open spec fn texts_of(found: Option<(String, String)>) -> Option<(Seq<char>, Seq<char>)> {
    match found {
        Some((id, pwd)) => Some((id@, pwd@)),
        None => None,
    }
}

/// The value that the query gives to `pwd`.
fn passcode_of(parts: &UrlParts) -> (r: Option<String>)
    ensures
        match r {
            Some(v) => value_of(parts.pairs(), "pwd"@) == Some(v@),
            None => value_of(parts.pairs(), "pwd"@) is None,
        },
{
    let ghost pairs = parts.pairs();
    let mut i: usize = parts.query_pairs.len();
    while i > 0
        invariant
            i <= parts.query_pairs@.len(),
            pairs == parts.pairs(),
            forall|j: int| i <= j < pairs.len() ==> pairs[j].0 != "pwd"@,
        decreases i,
    {
        i = i - 1;
        let pair = &parts.query_pairs[i];
        if same_text(pair.0.as_str(), "pwd") {
            let value = pair.1.clone();
            proof {
                assert(pairs[i as int].0 == "pwd"@);
                assert(is_last_with_key(pairs, "pwd"@, i as int));
                let chosen = choose|at: int| is_last_with_key(pairs, "pwd"@, at);
                if chosen < i {
                    assert(pairs[i as int].0 != "pwd"@);
                }
                if i < chosen {
                    assert(pairs[chosen].0 != "pwd"@);
                }
                assert(value@ == pairs[i as int].1);
            }
            return Some(value);
        }
    }
    proof {
        assert forall|at: int| !is_last_with_key(pairs, "pwd"@, at) by {
            if 0 <= at < pairs.len() {
                assert(pairs[at].0 != "pwd"@);
            }
        }
    }
    None
}

/// Reads the meeting in the form with words out of `meeting_url`.
fn passcode_form_of(meeting_url: &str) -> (r: Option<(String, String)>)
    ensures
        texts_of(r) == passcode_form(meeting_url@),
{
    let text = chars_of(meeting_url);
    let opening = chars_of("(Passcode:");
    let length = text.len();
    match find_first(&text, ' ') {
        None => {
            proof {
                assert forall|at: int| !is_first(text@, ' ', at) by {
                    if 0 <= at < text@.len() {
                        assert(text@[at] != ' ');
                    }
                }
            }
            None
        },
        Some(at) => {
            proof {
                let chosen = choose|p: int| is_first(text@, ' ', p);
                assert(is_first(text@, ' ', at as int));
                if chosen < at {
                    assert(text@[chosen] != ' ');
                }
                if at < chosen {
                    assert(text@[at as int] != ' ');
                }
            }
            assert(at < length);
            let from = at + 1;
            let ghost words = text@.skip(from as int);
            if !matches_at(&text, &opening, from) {
                proof {
                    if occurs_at(words, opening@, 0) {
                        assert(words.subrange(0, opening@.len() as int) =~= text@.subrange(
                            from as int,
                            from + opening@.len(),
                        ));
                    }
                }
                return None;
            }
            proof {
                assert(words.subrange(0, opening@.len() as int) =~= text@.subrange(
                    from as int,
                    from + opening@.len(),
                ));
            }
            assert(from + opening@.len() <= length);
            let inner = from + opening.len();
            let id_start = start_after_last(&text, at, '/');
            let pwd_end = end_trimmed(&text, inner, ')');
            proof {
                assert(words.skip(opening@.len() as int) =~= text@.skip(inner as int));
            }
            let id = meeting_url.substring_char(id_start, at).to_owned();
            let pwd = meeting_url.substring_char(inner, pwd_end).to_owned();
            Some((id, pwd))
        },
    }
}

/// Reads the meeting out of `meeting_url`, given what parsing made of it:
/// `None` where it did not parse, else the second segment of the path with
/// the value of `pwd`, where both are there, else what the form with words
/// gives.
pub fn meeting_from_parts(meeting_url: &str, parts: Option<UrlParts>) -> (r: Option<(String, String)>)
    ensures
        texts_of(r) == meeting_in(
            meeting_url@,
            match parts {
                Some(p) => Some((p.segments(), p.pairs())),
                None => None,
            },
        ),
{
    match parts {
        None => None,
        Some(p) => {
            match &p.path_segments {
                Some(list) => {
                    if list.len() >= 2 {
                        match passcode_of(&p) {
                            Some(pwd) => {
                                let id = list[1].clone();
                                proof {
                                    assert(id@ == p.segments()->0[1]);
                                }
                                return Some((id, pwd));
                            },
                            None => {},
                        }
                    }
                },
                None => {},
            }
            passcode_form_of(meeting_url)
        },
    }
}

/// Parse Zoom meeting URL: the number and the passcode of the meeting that
/// `meeting_url` holds, and `None` where it is no address or holds none.
pub fn parse(meeting_url: &str) -> (r: Option<(String, String)>)
    ensures
        texts_of(r) == meeting_in(meeting_url@, url_parts(meeting_url@)),
{
    let parts = split_url(meeting_url);
    meeting_from_parts(meeting_url, parts)
}

} // verus!
