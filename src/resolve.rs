//! Where a note lives: a pure function of its kind, the notes root and the
//! date.

use crate::date::CalendarDate;
use crate::kind::{Granularity, NoteKind};
use crate::text::{
    join, lemma_two_digit_zero_padded, join_path, signed_decimal, signed_decimal_string, two_digit,
    two_digit_string,
};
use vstd::prelude::*;

verus! {

/// The directory of a note, and its file name within it.
pub struct ResolvedNotePath {
    pub directory: String,
    pub file_name: String,
}

/// The directory of a note of `kind` under `root` on `date`: the year, then
/// the two-digit month for monthly and daily kinds, then the two-digit day for
/// daily ones.
pub open spec fn note_directory(kind: NoteKind, root: Seq<char>, date: CalendarDate) -> Seq<char> {
    let year_dir = join(root, signed_decimal(date.year as int));
    let month_dir = join(year_dir, two_digit(date.month as nat));
    match kind.granularity_spec() {
        Granularity::Yearly => year_dir,
        Granularity::Monthly => month_dir,
        Granularity::Daily => join(month_dir, two_digit(date.day as nat)),
    }
}

/// The full path of a note of `kind` under `root` on `date`.
pub open spec fn note_path(kind: NoteKind, root: Seq<char>, date: CalendarDate) -> Seq<char> {
    join(note_directory(kind, root, date), kind.file_name_spec())
}

/// The template of `kind` under `root`, where the kind has one.
pub open spec fn template_path(kind: NoteKind, root: Seq<char>) -> Option<Seq<char>> {
    match kind.template_name_spec() {
        Some(name) => Some(join(root, name)),
        None => None,
    }
}

impl ResolvedNotePath {
    /// The directory and the file name joined.
    pub fn full_path(&self) -> (r: String)
        ensures
            r@ == join(self.directory@, self.file_name@),
    {
        join_path(self.directory.as_str(), self.file_name.as_str())
    }
}

/// Resolves where the note of `kind` for `date` lives under `root`.
pub fn resolve(kind: NoteKind, root: &str, date: CalendarDate) -> (r: ResolvedNotePath)
    requires
        date.wf(),
    ensures
        r.directory@ == note_directory(kind, root@, date),
        r.file_name@ == kind.file_name_spec(),
{
    let year = signed_decimal_string(date.year);
    let year_dir = join_path(root, year.as_str());
    let directory = match kind.granularity() {
        Granularity::Yearly => year_dir,
        Granularity::Monthly => {
            let month = two_digit_string(date.month);
            join_path(year_dir.as_str(), month.as_str())
        },
        Granularity::Daily => {
            let month = two_digit_string(date.month);
            let month_dir = join_path(year_dir.as_str(), month.as_str());
            let day = two_digit_string(date.day);
            join_path(month_dir.as_str(), day.as_str())
        },
    };
    ResolvedNotePath { directory, file_name: String::from_str(kind.file_name()) }
}

/// The full path of the note of `kind` for `date` under `root`.
pub fn note_file_path(kind: NoteKind, root: &str, date: CalendarDate) -> (r: String)
    requires
        date.wf(),
    ensures
        r@ == note_path(kind, root@, date),
{
    resolve(kind, root, date).full_path()
}

/// The path of the template of `kind` under `root`, where it has one.
pub fn template_file_path(kind: NoteKind, root: &str) -> (r: Option<String>)
    ensures
        r.is_some() == template_path(kind, root@).is_some(),
        r.is_some() ==> r.unwrap()@ == template_path(kind, root@).unwrap(),
{
    match kind.template_name() {
        Some(name) => Some(join_path(root, name)),
        None => None,
    }
}

/// Two dates on the same calendar day resolve the day note to the same path.
pub proof fn lemma_day_path_fixed_within_day(root: Seq<char>, d1: CalendarDate, d2: CalendarDate)
    requires
        d1.year == d2.year,
        d1.month == d2.month,
        d1.day == d2.day,
    ensures
        note_directory(NoteKind::Day, root, d1) == note_directory(NoteKind::Day, root, d2),
        note_path(NoteKind::Day, root, d1) == note_path(NoteKind::Day, root, d2),
{
}

/// Two dates in the same calendar month resolve the week note and the month
/// note to one and the same directory, whatever their days, under different
/// file names.
pub proof fn lemma_week_and_month_share_directory(
    root: Seq<char>,
    d1: CalendarDate,
    d2: CalendarDate,
)
    requires
        d1.year == d2.year,
        d1.month == d2.month,
    ensures
        note_directory(NoteKind::Week, root, d1) == note_directory(NoteKind::Week, root, d2),
        note_directory(NoteKind::Month, root, d1) == note_directory(NoteKind::Month, root, d2),
        note_directory(NoteKind::Week, root, d1) == note_directory(NoteKind::Month, root, d1),
        NoteKind::Week.file_name_spec() != NoteKind::Month.file_name_spec(),
        note_path(NoteKind::Week, root, d1) != note_path(NoteKind::Month, root, d2),
{
    reveal_strlit("week.md");
    reveal_strlit("month.md");
    let w = NoteKind::Week.file_name_spec();
    let m = NoteKind::Month.file_name_spec();
    assert(w[0] != m[0]);
    let dir = note_directory(NoteKind::Week, root, d1);
    let dl = if dir.len() == 0 || dir.last() == '/' { dir.len() } else { dir.len() + 1 };
    assert(note_path(NoteKind::Week, root, d1)[dl as int] == w[0]);
    assert(note_path(NoteKind::Month, root, d2)[dl as int] == m[0]);
}

/// The index note's path depends on the year of the date alone.
pub proof fn lemma_index_path_depends_on_year(root: Seq<char>, d1: CalendarDate, d2: CalendarDate)
    requires
        d1.year == d2.year,
    ensures
        note_path(NoteKind::Index, root, d1) == note_path(NoteKind::Index, root, d2),
{
}

/// The month and day components of a resolved path are two characters each,
/// zero-padded: the day note of `date` lies under `root/<year>/<MM>/<DD>`.
pub proof fn lemma_month_and_day_two_digits(root: Seq<char>, date: CalendarDate)
    requires
        date.wf(),
    ensures
        note_path(NoteKind::Day, root, date) == join(
            join(
                join(join(root, signed_decimal(date.year as int)), two_digit(date.month as nat)),
                two_digit(date.day as nat),
            ),
            "day.md"@,
        ),
        two_digit(date.month as nat).len() == 2,
        two_digit(date.day as nat).len() == 2,
{
    lemma_two_digit_zero_padded(date.month as nat);
    lemma_two_digit_zero_padded(date.day as nat);
}

} // verus!
