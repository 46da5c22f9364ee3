use vstd::prelude::*;
use vstd::utf8::{encode_utf8, encode_utf8_decode_utf8};

verus! {

/// The most bytes a title may take.
pub const MAX_TITLE_BYTES: usize = 50;

/// The most bytes a description may take.
pub const MAX_DESCRIPTION_BYTES: usize = 500;

/// The length of `s` in bytes once encoded as UTF-8.
pub open spec fn byte_len(s: Seq<char>) -> nat {
    encode_utf8(s).len()
}

/// Why a title, description or status was refused.
#[derive(Debug, Clone, Copy, PartialEq, Eq, Structural)]
pub enum TicketError {
    TitleEmpty,
    TitleTooLong,
    DescriptionEmpty,
    DescriptionTooLong,
    InvalidStatus,
}

/// Whether `a` and `b` hold the same text, compared byte by byte.
fn same_text(a: &str, b: &str) -> (r: bool)
    ensures
        r == (a@ == b@),
{
    let x = a.as_bytes();
    let y = b.as_bytes();
    if x.len() != y.len() {
        proof {
            if a@ == b@ {
                assert(x@ == y@);
            }
        }
        return false;
    }
    let mut i: usize = 0;
    while i < x.len()
        invariant
            x@ == encode_utf8(a@),
            y@ == encode_utf8(b@),
            x@.len() == y@.len(),
            i <= x@.len(),
            forall|k: int| 0 <= k < i ==> x@[k] == y@[k],
        decreases x@.len() - i,
    {
        if x[i] != y[i] {
            proof {
                if a@ == b@ {
                    assert(x@ == y@);
                    assert(x@[i as int] == y@[i as int]);
                }
            }
            return false;
        }
        i = i + 1;
    }
    proof {
        assert(x@ =~= y@);
        encode_utf8_decode_utf8(a@);
        encode_utf8_decode_utf8(b@);
    }
    true
}

impl TicketError {
    /// The human-readable text of each refusal.
    pub open spec fn spec_message(self) -> Seq<char> {
        match self {
            TicketError::TitleEmpty => "Title cannot be empty"@,
            TicketError::TitleTooLong => "Title cannot be longer than 50 bytes"@,
            TicketError::DescriptionEmpty => "Description cannot be empty"@,
            TicketError::DescriptionTooLong => "Description cannot be longer than 500 bytes"@,
            TicketError::InvalidStatus => "Only `To-Do`, `In Progress`, and `Done` statuses are allowed"@,
        }
    }

    pub fn message(&self) -> (r: String)
        ensures
            r@ == self.spec_message(),
    {
        match self {
            TicketError::TitleEmpty => "Title cannot be empty".to_owned(),
            TicketError::TitleTooLong => "Title cannot be longer than 50 bytes".to_owned(),
            TicketError::DescriptionEmpty => "Description cannot be empty".to_owned(),
            TicketError::DescriptionTooLong => "Description cannot be longer than 500 bytes".to_owned(),
            TicketError::InvalidStatus => "Only `To-Do`, `In Progress`, and `Done` statuses are allowed".to_owned(),
        }
    }
}

/// A title must take between 1 and `MAX_TITLE_BYTES` bytes.
pub open spec fn title_check(t: Seq<char>) -> Result<(), TicketError> {
    if byte_len(t) == 0 {
        Err(TicketError::TitleEmpty)
    } else if byte_len(t) > MAX_TITLE_BYTES {
        Err(TicketError::TitleTooLong)
    } else {
        Ok(())
    }
}

/// A description must take between 1 and `MAX_DESCRIPTION_BYTES` bytes.
pub open spec fn description_check(d: Seq<char>) -> Result<(), TicketError> {
    if byte_len(d) == 0 {
        Err(TicketError::DescriptionEmpty)
    } else if byte_len(d) > MAX_DESCRIPTION_BYTES {
        Err(TicketError::DescriptionTooLong)
    } else {
        Ok(())
    }
}

/// The status vocabulary, matched exactly.
pub open spec fn is_known_status(s: Seq<char>) -> bool {
    s == "To-Do"@ || s == "In Progress"@ || s == "Done"@
}

pub open spec fn status_check(s: Seq<char>) -> Result<(), TicketError> {
    if is_known_status(s) {
        Ok(())
    } else {
        Err(TicketError::InvalidStatus)
    }
}

/// The outcome of building a ticket: the title is judged first, then the
/// description, then the status.
pub open spec fn ticket_check(t: Seq<char>, d: Seq<char>, s: Seq<char>) -> Result<(), TicketError> {
    if title_check(t) is Err {
        title_check(t)
    } else if description_check(d) is Err {
        description_check(d)
    } else {
        status_check(s)
    }
}

/// The three texts that a ticket carries.
pub struct TicketView {
    pub title: Seq<char>,
    pub description: Seq<char>,
    pub status: Seq<char>,
}

impl TicketView {
    pub open spec fn is_valid(self) -> bool {
        ticket_check(self.title, self.description, self.status) is Ok
    }

    pub open spec fn with_title(self, t: Seq<char>) -> TicketView {
        TicketView { title: t, ..self }
    }

    pub open spec fn with_description(self, d: Seq<char>) -> TicketView {
        TicketView { description: d, ..self }
    }

    pub open spec fn with_status(self, s: Seq<char>) -> TicketView {
        TicketView { status: s, ..self }
    }
}

/// A ticket whose title, description and status always pass validation.
pub struct Ticket {
    title: String,
    description: String,
    status: String,
}

impl View for Ticket {
    type V = TicketView;

    closed spec fn view(&self) -> TicketView {
        TicketView { title: self.title@, description: self.description@, status: self.status@ }
    }
}

impl Ticket {
    #[verifier::type_invariant]
    spec fn fields_valid(&self) -> bool {
        self@.is_valid()
    }

    fn check_title(title: &str) -> (r: Result<(), TicketError>)
        ensures
            r == title_check(title@),
    {
        let n = title.as_bytes().len();
        if n == 0 {
            Err(TicketError::TitleEmpty)
        } else if n > MAX_TITLE_BYTES {
            Err(TicketError::TitleTooLong)
        } else {
            Ok(())
        }
    }

    fn check_description(description: &str) -> (r: Result<(), TicketError>)
        ensures
            r == description_check(description@),
    {
        let n = description.as_bytes().len();
        if n == 0 {
            Err(TicketError::DescriptionEmpty)
        } else if n > MAX_DESCRIPTION_BYTES {
            Err(TicketError::DescriptionTooLong)
        } else {
            Ok(())
        }
    }

    fn check_status(status: &str) -> (r: Result<(), TicketError>)
        ensures
            r == status_check(status@),
    {
        if same_text(status, "To-Do") || same_text(status, "In Progress") || same_text(
            status,
            "Done",
        ) {
            Ok(())
        } else {
            Err(TicketError::InvalidStatus)
        }
    }

    /// Builds a ticket from three texts, or says which of them is refused.
    pub fn new(title: String, description: String, status: String) -> (r: Result<
        Ticket,
        TicketError,
    >)
        ensures
            match r {
                Ok(t) => ticket_check(title@, description@, status@) is Ok && t@ == (TicketView {
                    title: title@,
                    description: description@,
                    status: status@,
                }),
                Err(e) => ticket_check(title@, description@, status@) == Err::<(), TicketError>(e),
            },
    {
        if let Err(e) = Self::check_title(title.as_str()) {
            return Err(e);
        }
        if let Err(e) = Self::check_description(description.as_str()) {
            return Err(e);
        }
        if let Err(e) = Self::check_status(status.as_str()) {
            return Err(e);
        }
        Ok(Ticket { title, description, status })
    }

    pub fn title(&self) -> (r: &String)
        ensures
            r@ == self@.title,
            title_check(r@) is Ok,
    {
        proof {
            use_type_invariant(self);
        }
        &self.title
    }

    pub fn description(&self) -> (r: &String)
        ensures
            r@ == self@.description,
            description_check(r@) is Ok,
    {
        proof {
            use_type_invariant(self);
        }
        &self.description
    }

    pub fn status(&self) -> (r: &String)
        ensures
            r@ == self@.status,
            status_check(r@) is Ok,
    {
        proof {
            use_type_invariant(self);
        }
        &self.status
    }

    /// Replaces the title if the new one is valid; on refusal nothing changes.
    pub fn set_title(&mut self, new_title: String) -> (r: Result<(), TicketError>)
        ensures
            r == title_check(new_title@),
            final(self)@ == (if r is Ok {
                old(self)@.with_title(new_title@)
            } else {
                old(self)@
            }),
    {
        proof {
            use_type_invariant(&*self);
        }
        let checked = Self::check_title(new_title.as_str());
        if checked.is_ok() {
            self.title = new_title;
        }
        checked
    }

    /// Replaces the description if the new one is valid; on refusal nothing changes.
    pub fn set_description(&mut self, new_description: String) -> (r: Result<(), TicketError>)
        ensures
            r == description_check(new_description@),
            final(self)@ == (if r is Ok {
                old(self)@.with_description(new_description@)
            } else {
                old(self)@
            }),
    {
        proof {
            use_type_invariant(&*self);
        }
        let checked = Self::check_description(new_description.as_str());
        if checked.is_ok() {
            self.description = new_description;
        }
        checked
    }

    /// Replaces the status if the new one is in the vocabulary; on refusal nothing changes.
    pub fn set_status(&mut self, new_status: String) -> (r: Result<(), TicketError>)
        ensures
            r == status_check(new_status@),
            final(self)@ == (if r is Ok {
                old(self)@.with_status(new_status@)
            } else {
                old(self)@
            }),
    {
        proof {
            use_type_invariant(&*self);
        }
        let checked = Self::check_status(new_status.as_str());
        if checked.is_ok() {
            self.status = new_status;
        }
        checked
    }
}

/// Any title of 1 to `MAX_TITLE_BYTES` bytes, description of 1 to
/// `MAX_DESCRIPTION_BYTES` bytes and status from the vocabulary are accepted
/// together, and the ticket then carries exactly those texts.
pub proof fn law_valid_fields_are_accepted(t: Seq<char>, d: Seq<char>, s: Seq<char>)
    requires
        1 <= byte_len(t) <= MAX_TITLE_BYTES,
        1 <= byte_len(d) <= MAX_DESCRIPTION_BYTES,
        is_known_status(s),
    ensures
        ticket_check(t, d, s) is Ok,
        (TicketView { title: t, description: d, status: s }).is_valid(),
{
}

/// An empty title is refused as empty, and one longer than `MAX_TITLE_BYTES`
/// bytes as too long, whatever the description and status.
pub proof fn law_bad_title_is_refused(t: Seq<char>, d: Seq<char>, s: Seq<char>)
    ensures
        byte_len(t) == 0 ==> ticket_check(t, d, s) == Err::<(), TicketError>(
            TicketError::TitleEmpty,
        ),
        byte_len(t) > MAX_TITLE_BYTES ==> ticket_check(t, d, s) == Err::<(), TicketError>(
            TicketError::TitleTooLong,
        ),
{
}

/// Beside a valid title, an empty description is refused as empty, and one
/// longer than `MAX_DESCRIPTION_BYTES` bytes as too long, whatever the status.
pub proof fn law_bad_description_is_refused(t: Seq<char>, d: Seq<char>, s: Seq<char>)
    requires
        title_check(t) is Ok,
    ensures
        byte_len(d) == 0 ==> ticket_check(t, d, s) == Err::<(), TicketError>(
            TicketError::DescriptionEmpty,
        ),
        byte_len(d) > MAX_DESCRIPTION_BYTES ==> ticket_check(t, d, s) == Err::<
            (),
            TicketError,
        >(TicketError::DescriptionTooLong),
{
}

/// Beside a valid title and description, a status outside the vocabulary is
/// refused.
pub proof fn law_unknown_status_is_refused(t: Seq<char>, d: Seq<char>, s: Seq<char>)
    requires
        title_check(t) is Ok,
        description_check(d) is Ok,
        !is_known_status(s),
    ensures
        ticket_check(t, d, s) == Err::<(), TicketError>(TicketError::InvalidStatus),
{
}

/// After a field is replaced, reading that field gives the new text and the
/// other two fields are as before.
pub proof fn law_set_then_read(v: TicketView, t: Seq<char>, d: Seq<char>, s: Seq<char>)
    ensures
        v.with_title(t).title == t,
        v.with_title(t).description == v.description,
        v.with_title(t).status == v.status,
        v.with_description(d).description == d,
        v.with_description(d).title == v.title,
        v.with_description(d).status == v.status,
        v.with_status(s).status == s,
        v.with_status(s).title == v.title,
        v.with_status(s).description == v.description,
{
}

} // verus!
