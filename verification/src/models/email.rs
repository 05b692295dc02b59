//! E-mail addresses, sanitized (trimmed, then lower-cased) and then checked:
//! at most 254 bytes, an `@`, and after the first `@` a domain that holds a
//! dot but neither starts nor ends with one.

use vstd::prelude::*;

use crate::text::{
    chars_of, contains_from, find_char, is_first_index_of, to_lowercase, trim, trim_str,
    unicode_lowercase, utf8_len, utf8_len_exceeds,
};

verus! {

/// Most bytes an address may have.
pub const EMAIL_MAX_BYTES: usize = 254;

/// The domain part of an address passes: it holds a dot, and does not start
/// or end with one.
pub open spec fn domain_ok(d: Seq<char>) -> bool {
    &&& d.contains('.')
    &&& !(d.len() > 0 && d[0] == '.')
    &&& !(d.len() > 0 && d.last() == '.')
}

/// The address check: after trimming, at most 254 bytes, with an `@` whose
/// first occurrence is followed by a passing domain.
pub open spec fn email_predicate(s: Seq<char>) -> bool {
    let t = trim(s);
    &&& utf8_len(t) <= EMAIL_MAX_BYTES
    &&& exists|at: int| is_first_index_of(t, '@', at) && domain_ok(t.subrange(at + 1, t.len() as int))
}

/// The text an address is kept as: trimmed, then lower-cased.
pub open spec fn sanitize_email(raw: Seq<char>) -> Seq<char> {
    unicode_lowercase(trim(raw))
}

/// The text after the first `@` of `t` holds a dot.
pub open spec fn dot_after_first_at(t: Seq<char>) -> bool {
    exists|at: int|
        0 <= at < t.len() && t[at] == '@' && (forall|k: int| 0 <= k < at ==> t[k] != '@') && (
        exists|j: int| at < j < t.len() && t[j] == '.')
}

/// Checks an address text (it is trimmed first).
pub fn validate_email_str(s: &str) -> (r: bool)
    ensures
        r == email_predicate(s@),
        r ==> dot_after_first_at(trim(s@)),
{
    let t = trim_str(s);
    let v = chars_of(t.as_str());
    if utf8_len_exceeds(&v, EMAIL_MAX_BYTES) {
        return false;
    }
    let n = v.len();
    match find_char(&v, '@') {
        None => {
            assert forall|at: int| !is_first_index_of(v@, '@', at) by {
                if 0 <= at < v@.len() && v@[at] == '@' {
                    assert(v@.contains('@'));
                }
            }
            false
        },
        Some(at) => {
            let ghost d = v@.subrange(at + 1, n as int);
            let has_dot = contains_from(&v, at + 1, '.');
            let starts_dot = at + 1 < n && v[at + 1] == '.';
            let ends_dot = at + 1 < n && v[n - 1] == '.';
            proof {
                if d.len() > 0 {
                    assert(d[0] == v@[at + 1]);
                    assert(d.last() == v@[n - 1]);
                }
                assert forall|b: int| is_first_index_of(v@, '@', b) implies b == at by {
                    if b < at {
                        assert(v@[b] != '@');
                    }
                    if b > at {
                        assert(v@[at as int] != '@');
                    }
                }
            }
            let ok = has_dot && !starts_dot && !ends_dot;
            proof {
                if ok {
                    lemma_email_accepted_iff(s@, at as int);
                }
            }
            ok
        },
    }
}

/// Which trimmed addresses are accepted, said directly of their characters:
/// with `at` the first `@`, an address passes exactly when it has at most 254
/// bytes, some character after `at` is a dot, the character right after `at`
/// is not a dot, and the last character is not a dot.
pub proof fn lemma_email_accepted_iff(s: Seq<char>, at: int)
    requires
        0 <= at < trim(s).len(),
        trim(s)[at] == '@',
        forall|k: int| 0 <= k < at ==> trim(s)[k] != '@',
    ensures
        email_predicate(s) <==> {
            let t = trim(s);
            &&& utf8_len(t) <= 254
            &&& exists|j: int| at < j < t.len() && t[j] == '.'
            &&& at + 1 < t.len() && t[at + 1] != '.'
            &&& t[t.len() - 1] != '.'
        },
{
    let t = trim(s);
    let d = t.subrange(at + 1, t.len() as int);
    assert forall|b: int| is_first_index_of(t, '@', b) implies b == at by {
        if b < at {
            assert(t[b] != '@');
        }
        if b > at {
            assert(t[at] != '@');
        }
    }
    assert(is_first_index_of(t, '@', at));
    if exists|j: int| at < j < t.len() && t[j] == '.' {
        let j = choose|j: int| at < j < t.len() && t[j] == '.';
        assert(d[j - at - 1] == '.');
        assert(d.contains('.'));
    }
    if d.contains('.') {
        let i = choose|i: int| 0 <= i < d.len() && d[i] == '.';
        assert(t[at + 1 + i] == '.');
    }
    if d.len() > 0 {
        assert(d[0] == t[at + 1]);
        assert(d.last() == t[t.len() - 1]);
    }
}

/// An address without an `@` (after trimming) is refused.
pub proof fn lemma_email_without_at_refused(s: Seq<char>)
    requires
        forall|k: int| 0 <= k < trim(s).len() ==> trim(s)[k] != '@',
    ensures
        !email_predicate(s),
{
}

/// Why an address is refused: it failed the address check.
#[derive(Debug, Clone, PartialEq, Eq)]
pub enum EmailError {
    PredicateViolated,
}

/// The text an `EmailError` reads as.
pub const EMAIL_PREDICATE_MESSAGE: &'static str = "Email failed the predicate test.";

impl EmailError {
    /// The text this error reads as.
    pub fn message(&self) -> (r: &'static str)
        ensures
            r@ == EMAIL_PREDICATE_MESSAGE@,
    {
        EMAIL_PREDICATE_MESSAGE
    }
}

/// A sanitized address that passed the check.
#[derive(Debug, PartialEq, Eq)]
pub struct Email(String);

impl View for Email {
    type V = Seq<char>;

    closed spec fn view(&self) -> Seq<char> {
        self.0@
    }
}

impl Email {
    #[verifier::type_invariant]
    spec fn inv(self) -> bool {
        email_predicate(self.0@)
    }

    /// Sanitizes `raw` (trim, then lower case) and checks the result.
    pub fn try_new(raw: String) -> (r: Result<Email, EmailError>)
        ensures
            r is Ok <==> email_predicate(sanitize_email(raw@)),
            r is Ok ==> dot_after_first_at(trim(sanitize_email(raw@))),
            r matches Ok(e) ==> e@ == sanitize_email(raw@),
            r matches Ok(e) ==> e@ == unicode_lowercase(trim(raw@)),
    {
        let t = trim_str(raw.as_str());
        let lowered = to_lowercase(t.as_str());
        if validate_email_str(lowered.as_str()) {
            Ok(Email(lowered))
        } else {
            Err(EmailError::PredicateViolated)
        }
    }

    /// A copy of this address.
    pub fn clone(&self) -> (r: Email)
        ensures
            r@ == self@,
    {
        proof {
            use_type_invariant(self);
        }
        Email(self.0.clone())
    }

    /// The address as text; it always passes the address check.
    pub fn as_str(&self) -> (r: &str)
        ensures
            r@ == self@,
            email_predicate(r@),
    {
        proof {
            use_type_invariant(self);
        }
        self.0.as_str()
    }
}

} // verus!
