use vstd::prelude::*;

verus! {

/// The stored value for one account: a display name and a status message.
///
/// A field that was never set by its owner holds the empty string; whether a
/// record exists at all for a key is the store's concern, not the record's.
pub struct Info {
    pub name: String,
    pub status: String,
}

/// The mathematical value of a record: both fields as character sequences.
pub ghost struct InfoView {
    pub name: Seq<char>,
    pub status: Seq<char>,
}

impl View for Info {
    type V = InfoView;

    open spec fn view(&self) -> InfoView {
        InfoView { name: self.name@, status: self.status@ }
    }
}

impl DeepView for Info {
    type V = InfoView;

    open spec fn deep_view(&self) -> InfoView {
        self@
    }
}

/// The record that a status update leaves behind: the new status message,
/// with the previous name kept, or the empty name if no record existed.
pub open spec fn with_status(prev: Option<InfoView>, message: Seq<char>) -> InfoView {
    InfoView {
        name: match prev {
            Some(p) => p.name,
            None => Seq::empty(),
        },
        status: message,
    }
}

/// The record that a name update leaves behind: the new name, with the
/// previous status kept, or the empty status if no record existed.
pub open spec fn with_name(prev: Option<InfoView>, name: Seq<char>) -> InfoView {
    InfoView {
        name: name,
        status: match prev {
            Some(p) => p.status,
            None => Seq::empty(),
        },
    }
}

/// The read-modify-write step of a status update, on plain values: given the
/// record read for a key (or its absence), build the record to write back.
pub fn updated_with_status(prev: Option<Info>, message: String) -> (r: Info)
    ensures
        r@ == with_status(prev.deep_view(), message@),
{
    match prev {
        None => Info { name: String::new(), status: message },
        Some(mut i) => {
            i.status = message;
            i
        },
    }
}

/// The read-modify-write step of a name update, on plain values: given the
/// record read for a key (or its absence), build the record to write back.
pub fn updated_with_name(prev: Option<Info>, name: String) -> (r: Info)
    ensures
        r@ == with_name(prev.deep_view(), name@),
{
    match prev {
        None => Info { name: name, status: String::new() },
        Some(mut i) => {
            i.name = name;
            i
        },
    }
}

} // verus!
