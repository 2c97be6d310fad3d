//! Validated sign-up input.
//!
//! Raw form input is a pair of strings. `SubscriberName::parse` and
//! `SubscriberEmail::parse` accept exactly the strings described by
//! `name_is_valid` and `email_is_valid`; a value of either type therefore
//! carries its validity with it, and invalid input can never reach the
//! store.

use vstd::prelude::*;
use vstd::string::StrSliceExecFns;

verus! {

/// Raw, unvalidated input of the sign-up form.
pub struct FormData {
    pub email: String,
    pub name: String,
}

/// Why a piece of sign-up input was rejected.
#[derive(Clone, Copy, PartialEq, Eq, Structural, Debug)]
pub enum ValidationError {
    InvalidName,
    InvalidEmail,
}

impl ValidationError {
    /// A human-readable reason, for callers that report the rejection.
    pub fn message(&self) -> (m: &'static str)
        ensures
            self is InvalidName ==> m@ == "not a valid subscriber name"@,
            self is InvalidEmail ==> m@ == "not a valid subscriber email"@,
    {
        match self {
            ValidationError::InvalidName => "not a valid subscriber name",
            ValidationError::InvalidEmail => "not a valid subscriber email",
        }
    }
}

/// The Unicode white-space code points, the characters stripped by
/// trimming: the ASCII spacing characters together with NEL, NBSP,
/// the Ogham space mark, the typographic spaces, the line and
/// paragraph separators, and the narrow, medium and ideographic
/// spaces.
pub open spec fn is_space_char(c: char) -> bool {
    ||| c == ' '
    ||| c == '\t'
    ||| c == '\n'
    ||| c == '\r'
    ||| c == '\u{b}'
    ||| c == '\u{c}'
    ||| c == '\u{85}'
    ||| c == '\u{a0}'
    ||| c == '\u{1680}'
    ||| (0x2000 <= c as u32 && c as u32 <= 0x200a)
    ||| c == '\u{2028}'
    ||| c == '\u{2029}'
    ||| c == '\u{202f}'
    ||| c == '\u{205f}'
    ||| c == '\u{3000}'
}

/// Characters a subscriber name may not contain: a fixed denylist
/// together with every control character.
pub open spec fn is_forbidden_name_char(c: char) -> bool {
    ||| c == '/'
    ||| c == '('
    ||| c == ')'
    ||| c == '"'
    ||| c == '<'
    ||| c == '>'
    ||| c == '\\'
    ||| c == '{'
    ||| c == '}'
    ||| (c as u32) < 0x20
    ||| (c as u32) == 0x7f
}

/// A name is valid when it is non-empty after trimming and free of
/// forbidden characters.
pub open spec fn name_is_valid(s: Seq<char>) -> bool {
    &&& exists|i: int| 0 <= i < s.len() && !is_space_char(#[trigger] s[i])
    &&& forall|i: int| 0 <= i < s.len() ==> !is_forbidden_name_char(#[trigger] s[i])
}

/// The shape an address must have around the `@` at position `i`:
/// a non-empty local part, no second `@`, and a domain that contains a
/// dot but neither starts nor ends with one.
pub open spec fn email_structure_ok_at(s: Seq<char>, i: int) -> bool {
    &&& 0 < i < s.len() - 1
    &&& forall|k: int| 0 <= k < s.len() && k != i ==> s[k] != '@'
    &&& s[i + 1] != '.'
    &&& s[s.len() - 1] != '.'
    &&& exists|j: int| i < j < s.len() && s[j] == '.'
}

/// An email address is valid when it contains no whitespace and has the
/// form `local@domain` with at least one dot in the domain.
pub open spec fn email_is_valid(s: Seq<char>) -> bool {
    &&& forall|k: int| 0 <= k < s.len() ==> !is_space_char(#[trigger] s[k])
    &&& exists|i: int| 0 <= i < s.len() && #[trigger] s[i] == '@' && email_structure_ok_at(s, i)
}

fn is_space(c: char) -> (r: bool)
    ensures
        r == is_space_char(c),
{
    c == ' ' || c == '\t' || c == '\n' || c == '\r' || c == '\u{b}' || c == '\u{c}'
        || c == '\u{85}' || c == '\u{a0}' || c == '\u{1680}' || (0x2000 <= c as u32 && c as u32
        <= 0x200a) || c == '\u{2028}' || c == '\u{2029}' || c == '\u{202f}' || c == '\u{205f}'
        || c == '\u{3000}'
}

fn is_forbidden(c: char) -> (r: bool)
    ensures
        r == is_forbidden_name_char(c),
{
    c == '/' || c == '(' || c == ')' || c == '"' || c == '<' || c == '>' || c == '\\' || c == '{'
        || c == '}' || (c as u32) < 0x20 || (c as u32) == 0x7f
}

/// A subscriber name that passed validation.
pub struct SubscriberName {
    name: String,
}

impl View for SubscriberName {
    type V = Seq<char>;

    closed spec fn view(&self) -> Seq<char> {
        self.name@
    }
}

impl SubscriberName {
    /// Accepts exactly the names `name_is_valid` describes and returns
    /// them unchanged.
    pub fn parse(s: String) -> (r: Result<SubscriberName, ValidationError>)
        ensures
            r is Ok <==> name_is_valid(s@),
            r matches Ok(n) ==> n@ == s@,
            r matches Err(e) ==> e == ValidationError::InvalidName,
    {
        let n = s.as_str().unicode_len();
        let mut has_visible = false;
        let mut has_forbidden = false;
        let mut i: usize = 0;
        while i < n
            invariant
                n == s@.len(),
                i <= n,
                has_visible <==> exists|k: int| 0 <= k < i && !is_space_char(#[trigger] s@[k]),
                has_forbidden <==> exists|k: int|
                    0 <= k < i && is_forbidden_name_char(#[trigger] s@[k]),
            decreases n - i,
        {
            let c = s.as_str().get_char(i);
            if !is_space(c) {
                has_visible = true;
            }
            if is_forbidden(c) {
                has_forbidden = true;
            }
            i += 1;
        }
        if has_visible && !has_forbidden {
            Ok(SubscriberName { name: s })
        } else {
            Err(ValidationError::InvalidName)
        }
    }

    /// The validated name as a string slice.
    pub fn as_ref(&self) -> (r: &str)
        ensures
            r@ == self@,
    {
        self.name.as_str()
    }
}

/// A subscriber email address that passed validation.
pub struct SubscriberEmail {
    email: String,
}

impl View for SubscriberEmail {
    type V = Seq<char>;

    closed spec fn view(&self) -> Seq<char> {
        self.email@
    }
}

impl SubscriberEmail {
    /// Accepts exactly the addresses `email_is_valid` describes and
    /// returns them unchanged.
    pub fn parse(s: String) -> (r: Result<SubscriberEmail, ValidationError>)
        ensures
            r is Ok <==> email_is_valid(s@),
            r matches Ok(e) ==> e@ == s@,
            r matches Err(e) ==> e == ValidationError::InvalidEmail,
    {
        let n = s.as_str().unicode_len();
        let mut at_seen = false;
        let mut at_multi = false;
        let mut space_seen = false;
        let mut at_pos: usize = 0;
        let mut i: usize = 0;
        while i < n
            invariant
                n == s@.len(),
                i <= n,
                space_seen <==> exists|k: int| 0 <= k < i && is_space_char(#[trigger] s@[k]),
                !at_seen ==> forall|k: int| 0 <= k < i ==> #[trigger] s@[k] != '@',
                at_seen ==> at_pos < i && s@[at_pos as int] == '@',
                at_seen && !at_multi ==> forall|k: int|
                    0 <= k < i && k != at_pos ==> #[trigger] s@[k] != '@',
                at_multi ==> at_seen && exists|k: int|
                    0 <= k < i && k != at_pos && #[trigger] s@[k] == '@',
            decreases n - i,
        {
            let c = s.as_str().get_char(i);
            if c == '@' {
                if at_seen {
                    at_multi = true;
                } else {
                    at_seen = true;
                    at_pos = i;
                }
            }
            if is_space(c) {
                space_seen = true;
            }
            i += 1;
        }
        if space_seen {
            assert(!email_is_valid(s@));
            return Err(ValidationError::InvalidEmail);
        }
        if at_multi {
            assert forall|c: int| 0 <= c < s@.len() && #[trigger] s@[c] == '@' implies
                !email_structure_ok_at(s@, c) by {
                let k = choose|k: int| 0 <= k < s@.len() && k != at_pos && #[trigger] s@[k] == '@';
                if c != at_pos {
                    assert(s@[at_pos as int] == '@');
                } else {
                    assert(s@[k] == '@');
                }
            }
            return Err(ValidationError::InvalidEmail);
        }
        if !at_seen {
            assert(!email_is_valid(s@));
            return Err(ValidationError::InvalidEmail);
        }
        if at_pos == 0 || at_pos + 1 >= n {
            return Err(ValidationError::InvalidEmail);
        }
        if s.as_str().get_char(at_pos + 1) == '.' || s.as_str().get_char(n - 1) == '.' {
            return Err(ValidationError::InvalidEmail);
        }
        let mut dot_seen = false;
        let mut j: usize = at_pos + 1;
        while j < n
            invariant
                n == s@.len(),
                at_pos < j <= n,
                dot_seen <==> exists|k: int| at_pos < k < j && #[trigger] s@[k] == '.',
            decreases n - j,
        {
            if s.as_str().get_char(j) == '.' {
                dot_seen = true;
            }
            j += 1;
        }
        if dot_seen {
            assert(email_structure_ok_at(s@, at_pos as int));
            Ok(SubscriberEmail { email: s })
        } else {
            Err(ValidationError::InvalidEmail)
        }
    }

    /// The validated address as a string slice.
    pub fn as_ref(&self) -> (r: &str)
        ensures
            r@ == self@,
    {
        self.email.as_str()
    }
}

/// A validated sign-up: a name and an email address that both passed
/// their checks.
pub struct NewSubscriber {
    pub name: SubscriberName,
    pub email: SubscriberEmail,
}

impl NewSubscriber {
    /// Validates raw form input. Succeeds exactly when both fields are
    /// valid, and the checks run name first, as the sign-up form reports
    /// the name's failure when both are invalid.
    pub fn try_from(value: FormData) -> (r: Result<NewSubscriber, ValidationError>)
        ensures
            r is Ok <==> name_is_valid(value.name@) && email_is_valid(value.email@),
            r matches Ok(ns) ==> ns.name@ == value.name@ && ns.email@ == value.email@,
            r matches Err(e) ==> (e == ValidationError::InvalidName <==> !name_is_valid(
                value.name@,
            )),
    {
        let name = match SubscriberName::parse(value.name) {
            Ok(name) => name,
            Err(e) => {
                return Err(e);
            },
        };
        let email = match SubscriberEmail::parse(value.email) {
            Ok(email) => email,
            Err(e) => {
                return Err(e);
            },
        };
        Ok(NewSubscriber { name, email })
    }
}

} // verus!
