//! User names: trimmed, 3 to 32 bytes of UTF-8, made of letters, digits,
//! underscores and hyphens.

use vstd::prelude::*;
use vstd::string::StringExecFns;

use crate::error::{PipelineError, PipelineErrorView};
use crate::text::{
    chars_of, is_alphanumeric, lemma_trim_idempotent, trim, trim_str,
    unicode_alphanumeric, utf8_len, utf8_len_exceeds,
};

verus! {

/// Fewest bytes a user name may have.
pub const USERNAME_MIN: usize = 3;

/// Most bytes a user name may have.
pub const USERNAME_MAX: usize = 32;

/// Why a name of the wrong length is refused.
pub const USERNAME_LENGTH_MESSAGE: &'static str = "username must be 3\u{2013}32 characters";

/// Why a name with other characters is refused.
pub const USERNAME_CHARS_MESSAGE: &'static str =
    "username may only contain letters, digits, underscores, or hyphens";

/// A character that a user name may hold.
pub open spec fn username_char_ok(c: char) -> bool {
    unicode_alphanumeric(c) || c == '_' || c == '-'
}

/// Every character of `s` may stand in a user name.
pub open spec fn username_chars_ok(s: Seq<char>) -> bool {
    forall|i: int| 0 <= i < s.len() ==> #[trigger] username_char_ok(s[i])
}

/// What `Username::parse` makes of `raw`: the trimmed text, or the reason it is refused.
pub open spec fn parse_username(raw: Seq<char>) -> Result<Seq<char>, PipelineErrorView> {
    let s = trim(raw);
    if utf8_len(s) < USERNAME_MIN || utf8_len(s) > USERNAME_MAX {
        Err(PipelineErrorView::Validation(USERNAME_LENGTH_MESSAGE@))
    } else if !username_chars_ok(s) {
        Err(PipelineErrorView::Validation(USERNAME_CHARS_MESSAGE@))
    } else {
        Ok(s)
    }
}

/// The text of every `Username`.
pub open spec fn username_valid(s: Seq<char>) -> bool {
    &&& trim(s) == s
    &&& USERNAME_MIN <= utf8_len(s) <= USERNAME_MAX
    &&& username_chars_ok(s)
}

/// A validated user name.
#[derive(Debug, PartialEq, Eq)]
pub struct Username(String);

impl View for Username {
    type V = Seq<char>;

    closed spec fn view(&self) -> Seq<char> {
        self.0@
    }
}

impl Username {
    #[verifier::type_invariant]
    spec fn inv(self) -> bool {
        username_valid(self.0@)
    }

    /// Trims `raw` and checks its length and characters.
    pub fn parse(raw: String) -> (r: Result<Username, PipelineError>)
        ensures
            r matches Ok(u) ==> parse_username(raw@) == Ok::<Seq<char>, PipelineErrorView>(u@),
            r matches Err(e) ==> parse_username(raw@) == Err::<Seq<char>, PipelineErrorView>(e@),
            r matches Ok(u) ==> forall|i: int|
                0 <= i < u@.len() ==> unicode_alphanumeric(#[trigger] u@[i]) || u@[i] == '_'
                    || u@[i] == '-',
    {
        let s = trim_str(raw.as_str());
        let v = chars_of(s.as_str());
        if !utf8_len_exceeds(&v, USERNAME_MIN - 1) || utf8_len_exceeds(&v, USERNAME_MAX) {
            return Err(PipelineError::Validation(String::from_str(USERNAME_LENGTH_MESSAGE)));
        }
        let n = v.len();
        let mut i: usize = 0;
        while i < n
            invariant
                i <= n == v.len(),
                v@ == s@,
                s@ == trim(raw@),
                USERNAME_MIN <= utf8_len(s@) <= USERNAME_MAX,
                forall|k: int| 0 <= k < i ==> #[trigger] username_char_ok(v@[k]),
            decreases n - i,
        {
            let c = v[i];
            if !(is_alphanumeric(c) || c == '_' || c == '-') {
                assert(!username_char_ok(s@[i as int]));
                assert(!username_chars_ok(trim(raw@)));
                return Err(PipelineError::Validation(String::from_str(USERNAME_CHARS_MESSAGE)));
            }
            i = i + 1;
        }
        proof {
            lemma_trim_idempotent(raw@);
            assert forall|k: int| 0 <= k < s@.len() implies unicode_alphanumeric(#[trigger] s@[k])
                || s@[k] == '_' || s@[k] == '-' by {
                assert(username_char_ok(v@[k]));
            }
        }
        Ok(Username(s))
    }

    /// A copy of this user name.
    pub fn clone(&self) -> (r: Username)
        ensures
            r@ == self@,
    {
        proof {
            use_type_invariant(self);
        }
        Username(self.0.clone())
    }

    /// The user name as text.
    pub fn as_str(&self) -> (r: &str)
        ensures
            r@ == self@,
            username_valid(r@),
    {
        proof {
            use_type_invariant(self);
        }
        self.0.as_str()
    }
}

/// Which names are accepted, said directly of their characters: after
/// trimming, a name is accepted exactly when it has 3 to 32 bytes and each of
/// its characters is alphanumeric, `_` or `-`; an accepted name is the
/// trimmed text, and a name of the wrong length is refused for its length.
pub proof fn lemma_username_accepted_iff(raw: Seq<char>)
    ensures
        parse_username(raw) is Ok <==> {
            let s = trim(raw);
            &&& 3 <= utf8_len(s) <= 32
            &&& forall|i: int|
                0 <= i < s.len() ==> unicode_alphanumeric(#[trigger] s[i]) || s[i] == '_' || s[i]
                    == '-'
        },
        parse_username(raw) matches Ok(u) ==> u == trim(raw) && forall|i: int|
            0 <= i < u.len() ==> unicode_alphanumeric(#[trigger] u[i]) || u[i] == '_' || u[i]
                == '-',
        (utf8_len(trim(raw)) < 3 || utf8_len(trim(raw)) > 32) ==> parse_username(raw) == Err::<
            Seq<char>,
            PipelineErrorView,
        >(PipelineErrorView::Validation(USERNAME_LENGTH_MESSAGE@)),
{
    let s = trim(raw);
    if username_chars_ok(s) {
        assert forall|i: int| 0 <= i < s.len() implies unicode_alphanumeric(#[trigger] s[i])
            || s[i] == '_' || s[i] == '-' by {
            assert(username_char_ok(s[i]));
        }
    } else {
        let i = choose|i: int| 0 <= i < s.len() && !#[trigger] username_char_ok(s[i]);
        assert(!(unicode_alphanumeric(s[i]) || s[i] == '_' || s[i] == '-'));
    }
}

/// A valid user name parses back to itself.
pub proof fn lemma_username_reparse(s: Seq<char>)
    requires
        username_valid(s),
    ensures
        parse_username(s) == Ok::<Seq<char>, PipelineErrorView>(s),
{
}

} // verus!
