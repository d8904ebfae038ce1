//! A validated ticket description: non-empty and at most 500 bytes long.

use vstd::prelude::*;

use crate::title::byte_len;

verus! {

/// The largest number of bytes a description may occupy.
pub const DESCRIPTION_MAX_BYTES: usize = 500;

/// Whether `text` is acceptable as a ticket description.
pub open spec fn description_ok(text: Seq<char>) -> bool {
    0 < byte_len(text) <= DESCRIPTION_MAX_BYTES
}

/// A ticket description, guaranteed non-empty and at most
/// [`DESCRIPTION_MAX_BYTES`] bytes long by construction.
#[derive(Debug)]
pub struct TicketDescription(String);

/// The two ways a candidate description can be rejected.
#[derive(Clone, Copy, Debug, PartialEq, Eq, Structural)]
pub enum TicketDescriptionError {
    DescriptionCannotBeEmpty,
    DescriptionTooLong,
}

impl View for TicketDescription {
    type V = Seq<char>;

    closed spec fn view(&self) -> Seq<char> {
        self.0@
    }
}

impl TicketDescription {
    /// The description's text.
    pub fn as_str(&self) -> (r: &str)
        ensures
            r@ == self@,
    {
        self.0.as_str()
    }
}

impl TicketDescriptionError {
    /// The human-readable description of the rejection.
    pub fn message(&self) -> (r: String)
        ensures
            *self is DescriptionCannotBeEmpty ==> r@ == "The description cannot be empty"@,
            *self is DescriptionTooLong ==> r@
                == "The description cannot be longer than 500 bytes"@,
    {
        match self {
            TicketDescriptionError::DescriptionCannotBeEmpty => {
                "The description cannot be empty".to_owned()
            },
            TicketDescriptionError::DescriptionTooLong => {
                "The description cannot be longer than 500 bytes".to_owned()
            },
        }
    }
}

impl Clone for TicketDescription {
    fn clone(&self) -> (r: Self)
        ensures
            r == *self,
    {
        TicketDescription(self.0.clone())
    }
}

impl PartialEq for TicketDescription {
    fn eq(&self, other: &TicketDescription) -> (r: bool) {
        self.0 == other.0
    }
}

impl vstd::std_specs::cmp::PartialEqSpecImpl for TicketDescription {
    open spec fn obeys_eq_spec() -> bool {
        true
    }

    open spec fn eq_spec(&self, other: &TicketDescription) -> bool {
        self@ == other@
    }
}

impl TryFrom<String> for TicketDescription {
    type Error = TicketDescriptionError;

    fn try_from(s: String) -> (r: Result<Self, TicketDescriptionError>)
        ensures
            r matches Ok(d) ==> d@ == s@ && description_ok(s@),
            byte_len(s@) == 0 ==> r == Err::<TicketDescription, TicketDescriptionError>(
                TicketDescriptionError::DescriptionCannotBeEmpty,
            ),
            byte_len(s@) > DESCRIPTION_MAX_BYTES ==> r == Err::<
                TicketDescription,
                TicketDescriptionError,
            >(TicketDescriptionError::DescriptionTooLong),
            description_ok(s@) ==> r is Ok,
    {
        let n = s.as_str().as_bytes().len();
        if n == 0 {
            Err(TicketDescriptionError::DescriptionCannotBeEmpty)
        } else if n > DESCRIPTION_MAX_BYTES {
            Err(TicketDescriptionError::DescriptionTooLong)
        } else {
            Ok(TicketDescription(s))
        }
    }
}

impl vstd::std_specs::convert::TryFromSpecImpl<String> for TicketDescription {
    open spec fn obeys_try_from_spec() -> bool {
        true
    }

    closed spec fn try_from_spec(s: String) -> Result<Self, TicketDescriptionError> {
        if byte_len(s@) == 0 {
            Err(TicketDescriptionError::DescriptionCannotBeEmpty)
        } else if byte_len(s@) > DESCRIPTION_MAX_BYTES {
            Err(TicketDescriptionError::DescriptionTooLong)
        } else {
            Ok(TicketDescription(s))
        }
    }
}

impl TryFrom<&str> for TicketDescription {
    type Error = TicketDescriptionError;

    fn try_from(s: &str) -> (r: Result<Self, TicketDescriptionError>)
        ensures
            r matches Ok(d) ==> d@ == s@ && description_ok(s@),
            byte_len(s@) == 0 ==> r == Err::<TicketDescription, TicketDescriptionError>(
                TicketDescriptionError::DescriptionCannotBeEmpty,
            ),
            byte_len(s@) > DESCRIPTION_MAX_BYTES ==> r == Err::<
                TicketDescription,
                TicketDescriptionError,
            >(TicketDescriptionError::DescriptionTooLong),
            description_ok(s@) ==> r is Ok,
    {
        let owned = s.to_owned();
        let n = owned.as_str().as_bytes().len();
        if n == 0 {
            Err(TicketDescriptionError::DescriptionCannotBeEmpty)
        } else if n > DESCRIPTION_MAX_BYTES {
            Err(TicketDescriptionError::DescriptionTooLong)
        } else {
            Ok(TicketDescription(owned))
        }
    }
}

// Conversion from borrowed text allocates, and a fresh allocation cannot
// be pinned down as one spec value, so the exact-result obligation is
// waived here; the explicit `ensures` on `try_from` carry the contract.
impl vstd::std_specs::convert::TryFromSpecImpl<&str> for TicketDescription {
    open spec fn obeys_try_from_spec() -> bool {
        false
    }

    closed spec fn try_from_spec(s: &str) -> Result<Self, TicketDescriptionError> {
        if byte_len(s@) == 0 {
            Err(TicketDescriptionError::DescriptionCannotBeEmpty)
        } else if byte_len(s@) > DESCRIPTION_MAX_BYTES {
            Err(TicketDescriptionError::DescriptionTooLong)
        } else {
            Ok(choose|d: TicketDescription| d@ == s@)
        }
    }
}

} // verus!
