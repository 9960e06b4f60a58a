//! The closed set of note kinds and the policy each one carries.

use vstd::prelude::*;

verus! {

/// One of the four kinds of note.
#[derive(Clone, Copy, Debug, PartialEq, Eq, Structural)]
pub enum NoteKind {
    /// A yearly note that the user keeps by hand; never made from a template.
    Index,
    /// One note per calendar day.
    Day,
    /// One note per calendar month, beside the month note.
    Week,
    /// One note per calendar month.
    Month,
}

/// How many date components name the directory of a note.
#[derive(Clone, Copy, Debug, PartialEq, Eq, Structural)]
pub enum Granularity {
    Yearly,
    Monthly,
    Daily,
}

impl NoteKind {
    /// The file name of a note of this kind.
    pub open spec fn file_name_spec(self) -> Seq<char> {
        match self {
            NoteKind::Index => "index.md"@,
            NoteKind::Day => "day.md"@,
            NoteKind::Week => "week.md"@,
            NoteKind::Month => "month.md"@,
        }
    }

    /// The template of this kind, relative to the notes root; the index has
    /// none.
    pub open spec fn template_name_spec(self) -> Option<Seq<char>> {
        match self {
            NoteKind::Index => None,
            NoteKind::Day => Some("template/day.md"@),
            NoteKind::Week => Some("template/week.md"@),
            NoteKind::Month => Some("template/month.md"@),
        }
    }

    /// The calendar boundary at which the directory of this kind changes.
    pub open spec fn granularity_spec(self) -> Granularity {
        match self {
            NoteKind::Index => Granularity::Yearly,
            NoteKind::Day => Granularity::Daily,
            NoteKind::Week => Granularity::Monthly,
            NoteKind::Month => Granularity::Monthly,
        }
    }

    /// The file name of a note of this kind.
    pub fn file_name(self) -> (r: &'static str)
        ensures
            r@ == self.file_name_spec(),
    {
        match self {
            NoteKind::Index => "index.md",
            NoteKind::Day => "day.md",
            NoteKind::Week => "week.md",
            NoteKind::Month => "month.md",
        }
    }

    /// The template of this kind, relative to the notes root.
    pub fn template_name(self) -> (r: Option<&'static str>)
        ensures
            r.is_some() == self.template_name_spec().is_some(),
            r.is_some() ==> r.unwrap()@ == self.template_name_spec().unwrap(),
    {
        match self {
            NoteKind::Index => None,
            NoteKind::Day => Some("template/day.md"),
            NoteKind::Week => Some("template/week.md"),
            NoteKind::Month => Some("template/month.md"),
        }
    }

    /// The calendar boundary at which the directory of this kind changes.
    pub fn granularity(self) -> (r: Granularity)
        ensures
            r == self.granularity_spec(),
    {
        match self {
            NoteKind::Index => Granularity::Yearly,
            NoteKind::Day => Granularity::Daily,
            NoteKind::Week => Granularity::Monthly,
            NoteKind::Month => Granularity::Monthly,
        }
    }
}

} // verus!
