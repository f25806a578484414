use vstd::prelude::*;
use vstd::string::*;

verus! {

/// A character with the Unicode `White_Space` property.
pub open spec fn is_white_space(c: char) -> bool {
    let n = c as u32;
    (0x9 <= n && n <= 0xD) || n == 0x20 || n == 0x85 || n == 0xA0 || n == 0x1680 || (0x2000
        <= n && n <= 0x200A) || n == 0x2028 || n == 0x2029 || n == 0x202F || n == 0x205F || n
        == 0x3000
}

/// A text that is empty or holds white space only.
pub open spec fn is_blank(s: Seq<char>) -> bool {
    forall|i: int| 0 <= i < s.len() ==> is_white_space(#[trigger] s[i])
}

/// `t` is `s` without its leading and trailing white space.
pub open spec fn is_trim_of(s: Seq<char>, t: Seq<char>) -> bool {
    exists|i: int, j: int|
        0 <= i <= j <= s.len() && t == s.subrange(i, j) && (forall|k: int|
            0 <= k < i ==> is_white_space(#[trigger] s[k])) && (forall|k: int|
            j <= k < s.len() ==> is_white_space(#[trigger] s[k])) && (i < j ==> !is_white_space(
            s[i]) && !is_white_space(s[j - 1]))
}

/// Relies on str::trim: it drops the leading and trailing characters that
/// have the Unicode `White_Space` property, and keeps the rest as it is.
#[verifier::external_body]
fn trim(s: &str) -> (r: &str)
    ensures
        is_trim_of(s@, r@),
{
    s.trim()
}

/// Whether `s` is empty or holds white space only.
pub fn is_blank_text(s: &str) -> (r: bool)
    ensures
        r == is_blank(s@),
{
    let t = trim(s);
    let r = t.is_empty();
    proof {
        let (i, j) = choose|i: int, j: int|
            0 <= i <= j <= s@.len() && t@ == s@.subrange(i, j) && (forall|k: int|
                0 <= k < i ==> is_white_space(#[trigger] s@[k])) && (forall|k: int|
                j <= k < s@.len() ==> is_white_space(#[trigger] s@[k])) && (i < j
                ==> !is_white_space(s@[i]) && !is_white_space(s@[j - 1]));
        if r {
            assert forall|k: int| 0 <= k < s@.len() implies is_white_space(#[trigger] s@[k]) by {
                if k < i {
                } else {
                    assert(j <= k);
                }
            }
        } else {
            assert(t@.len() > 0);
            assert(!is_white_space(s@[i]));
        }
    }
    r
}

/// What the command says when the URL is blank.
pub const EMPTY_URL_MESSAGE: &'static str = "the URL is empty";

/// Why a URL was not opened.
#[derive(Debug, PartialEq, Eq)]
pub enum OpenUrlError {
    /// The URL was empty or white space only; nothing was launched.
    Validation,
    /// The opener failed, and said why.
    Launch(String),
}

impl OpenUrlError {
    /// The text that the command hands back to its caller.
    pub open spec fn message_spec(&self) -> Seq<char> {
        match self {
            OpenUrlError::Validation => EMPTY_URL_MESSAGE@,
            OpenUrlError::Launch(m) => m@,
        }
    }

    /// The human-readable text of the error: the fixed message for a blank
    /// URL, or the opener's own message, word for word.
    pub fn message(&self) -> (r: String)
        ensures
            r@ == self.message_spec(),
    {
        match self {
            OpenUrlError::Validation => String::from_str(EMPTY_URL_MESSAGE),
            OpenUrlError::Launch(m) => m.clone(),
        }
    }
}

/// What the command returns on `url` when the opener reports `launched`.
/// On a blank URL the opener is not asked, and its report plays no part.
pub open spec fn command_result(url: Seq<char>, launched: Result<(), String>) -> Result<
    (),
    OpenUrlError,
> {
    if is_blank(url) {
        Err(OpenUrlError::Validation)
    } else {
        match launched {
            Ok(()) => Ok(()),
            Err(m) => Err(OpenUrlError::Launch(m)),
        }
    }
}

/// Opens `url` with `opener`, which asks the system to launch the default
/// handler for it.
///
/// A blank URL is refused with `OpenUrlError::Validation`. Any other URL is
/// handed to the opener once, as it was given, untrimmed; its success is
/// returned as `Ok(())` and its failure as `OpenUrlError::Launch` with the
/// opener's message unchanged. The opener's precondition is asked only for a
/// URL that is not blank, so on a blank one the opener cannot be called.
pub fn open_url<F>(url: String, opener: F) -> (r: Result<(), OpenUrlError>) where
    F: FnOnce(String) -> Result<(), String>,

    requires
        !is_blank(url@) ==> opener.requires((url,)),
    ensures
        is_blank(url@) ==> r == Err::<(), OpenUrlError>(OpenUrlError::Validation),
        !is_blank(url@) ==> exists|launched: Result<(), String>|
            opener.ensures((url,), launched) && r == command_result(url@, launched),
{
    if is_blank_text(url.as_str()) {
        return Err(OpenUrlError::Validation);
    }
    let ghost given = url@;
    let launched = opener(url);
    let ghost reported = launched;
    let r = match launched {
        Ok(()) => Ok(()),
        Err(m) => Err(OpenUrlError::Launch(m)),
    };
    assert(r == command_result(given, reported));
    r
}

/// Calls share no state: a call's result is fixed by its URL and by what the
/// opener reports. A blank URL is refused alike on every call, whatever the
/// opener would have said, and two calls on one URL whose launches the opener
/// reports alike end alike.
pub proof fn lemma_calls_independent(
    url: Seq<char>,
    first: Result<(), String>,
    second: Result<(), String>,
)
    ensures
        is_blank(url) ==> command_result(url, first) == Err::<(), OpenUrlError>(
            OpenUrlError::Validation) && command_result(url, second) == command_result(url, first),
        first == second ==> command_result(url, first) == command_result(url, second),
{
}

} // verus!
