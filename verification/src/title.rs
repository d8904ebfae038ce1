//! A validated ticket title: non-empty and at most 50 bytes long.

use vstd::prelude::*;

verus! {

/// The largest number of bytes a title may occupy.
pub const TITLE_MAX_BYTES: usize = 50;

/// How many bytes a sequence of characters occupies once encoded.
pub open spec fn byte_len(text: Seq<char>) -> nat {
    vstd::utf8::encode_utf8(text).len()
}

/// Whether `text` is acceptable as a ticket title.
pub open spec fn title_ok(text: Seq<char>) -> bool {
    0 < byte_len(text) <= TITLE_MAX_BYTES
}

/// A ticket title, guaranteed non-empty and at most [`TITLE_MAX_BYTES`]
/// bytes long by construction.
#[derive(Debug)]
pub struct TicketTitle(String);

/// The two ways a candidate title can be rejected.
#[derive(Clone, Copy, Debug, PartialEq, Eq, Structural)]
pub enum TicketTitleError {
    TitleCannotBeEmpty,
    TitleTooLong,
}

impl View for TicketTitle {
    type V = Seq<char>;

    closed spec fn view(&self) -> Seq<char> {
        self.0@
    }
}

impl TicketTitle {
    /// The title's text.
    pub fn as_str(&self) -> (r: &str)
        ensures
            r@ == self@,
    {
        self.0.as_str()
    }
}

impl TicketTitleError {
    /// The human-readable description of the rejection.
    pub fn message(&self) -> (r: String)
        ensures
            *self is TitleCannotBeEmpty ==> r@ == "The title cannot be empty"@,
            *self is TitleTooLong ==> r@ == "The title cannot be longer than 50 bytes"@,
    {
        match self {
            TicketTitleError::TitleCannotBeEmpty => "The title cannot be empty".to_owned(),
            TicketTitleError::TitleTooLong => "The title cannot be longer than 50 bytes".to_owned(),
        }
    }
}

impl Clone for TicketTitle {
    fn clone(&self) -> (r: Self)
        ensures
            r == *self,
    {
        TicketTitle(self.0.clone())
    }
}

impl PartialEq for TicketTitle {
    fn eq(&self, other: &TicketTitle) -> (r: bool) {
        self.0 == other.0
    }
}

impl vstd::std_specs::cmp::PartialEqSpecImpl for TicketTitle {
    open spec fn obeys_eq_spec() -> bool {
        true
    }

    open spec fn eq_spec(&self, other: &TicketTitle) -> bool {
        self@ == other@
    }
}

impl TryFrom<String> for TicketTitle {
    type Error = TicketTitleError;

    fn try_from(s: String) -> (r: Result<Self, TicketTitleError>)
        ensures
            r matches Ok(t) ==> t@ == s@ && title_ok(s@),
            byte_len(s@) == 0 ==> r == Err::<TicketTitle, TicketTitleError>(
                TicketTitleError::TitleCannotBeEmpty,
            ),
            byte_len(s@) > TITLE_MAX_BYTES ==> r == Err::<TicketTitle, TicketTitleError>(
                TicketTitleError::TitleTooLong,
            ),
            title_ok(s@) ==> r is Ok,
    {
        let n = s.as_str().as_bytes().len();
        if n == 0 {
            Err(TicketTitleError::TitleCannotBeEmpty)
        } else if n > TITLE_MAX_BYTES {
            Err(TicketTitleError::TitleTooLong)
        } else {
            Ok(TicketTitle(s))
        }
    }
}

impl vstd::std_specs::convert::TryFromSpecImpl<String> for TicketTitle {
    open spec fn obeys_try_from_spec() -> bool {
        true
    }

    closed spec fn try_from_spec(s: String) -> Result<Self, TicketTitleError> {
        if byte_len(s@) == 0 {
            Err(TicketTitleError::TitleCannotBeEmpty)
        } else if byte_len(s@) > TITLE_MAX_BYTES {
            Err(TicketTitleError::TitleTooLong)
        } else {
            Ok(TicketTitle(s))
        }
    }
}

impl TryFrom<&str> for TicketTitle {
    type Error = TicketTitleError;

    fn try_from(s: &str) -> (r: Result<Self, TicketTitleError>)
        ensures
            r matches Ok(t) ==> t@ == s@ && title_ok(s@),
            byte_len(s@) == 0 ==> r == Err::<TicketTitle, TicketTitleError>(
                TicketTitleError::TitleCannotBeEmpty,
            ),
            byte_len(s@) > TITLE_MAX_BYTES ==> r == Err::<TicketTitle, TicketTitleError>(
                TicketTitleError::TitleTooLong,
            ),
            title_ok(s@) ==> r is Ok,
    {
        let owned = s.to_owned();
        let n = owned.as_str().as_bytes().len();
        if n == 0 {
            Err(TicketTitleError::TitleCannotBeEmpty)
        } else if n > TITLE_MAX_BYTES {
            Err(TicketTitleError::TitleTooLong)
        } else {
            Ok(TicketTitle(owned))
        }
    }
}

// Conversion from borrowed text allocates, and a fresh allocation cannot
// be pinned down as one spec value, so the exact-result obligation is
// waived here; the explicit `ensures` on `try_from` carry the contract.
impl vstd::std_specs::convert::TryFromSpecImpl<&str> for TicketTitle {
    open spec fn obeys_try_from_spec() -> bool {
        false
    }

    closed spec fn try_from_spec(s: &str) -> Result<Self, TicketTitleError> {
        if byte_len(s@) == 0 {
            Err(TicketTitleError::TitleCannotBeEmpty)
        } else if byte_len(s@) > TITLE_MAX_BYTES {
            Err(TicketTitleError::TitleTooLong)
        } else {
            Ok(choose|t: TicketTitle| t@ == s@)
        }
    }
}

} // verus!
