//! Severity-ranked diagnostics and the stacked banner they render to.
//!
//! Every data-quality or operational problem met while building a dashboard
//! becomes a [`DashboardError`]. A [`DiagnosticStack`] collects the problems of
//! the current run and renders the single visible banner: the message of the
//! highest-priority diagnostic, plus one stacked icon per diagnostic, laid out
//! diagonally with the highest priority drawn last (visually in front).

use vstd::prelude::*;
use crate::numfmt::{i64_to_string, spec_int_digits};

verus! {

broadcast use vstd::seq_lib::group_seq_lib_default;

/// A prioritized data-quality or operational event.
///
/// The priority order is a fixed total order on the kinds: incomplete forecast
/// data outranks stale (cached) data, which outranks a failed self-update.
pub enum DashboardError {
    /// Forecast data is missing or unusable; `details` says what was missing.
    IncompleteData { details: String },
    /// A provider fell back to cached data; `details` says why.
    StaleData { details: String },
    /// The previous self-update cycle failed; `details` carries its error.
    UpdateFailed { details: String },
}

/// The severity rank of a diagnostic: higher means more urgent.
pub open spec fn spec_priority(e: DashboardError) -> int {
    match e {
        DashboardError::IncompleteData { .. } => 3,
        DashboardError::StaleData { .. } => 2,
        DashboardError::UpdateFailed { .. } => 1,
    }
}

/// The short, banner-sized description of a diagnostic kind.
pub open spec fn spec_short_description(e: DashboardError) -> Seq<char> {
    match e {
        DashboardError::IncompleteData { .. } => "Incomplete data"@,
        DashboardError::StaleData { .. } => "Stale data"@,
        DashboardError::UpdateFailed { .. } => "Update failed"@,
    }
}

/// The detailed description carried by a diagnostic.
pub open spec fn spec_details(e: DashboardError) -> Seq<char> {
    match e {
        DashboardError::IncompleteData { details } => details@,
        DashboardError::StaleData { details } => details@,
        DashboardError::UpdateFailed { details } => details@,
    }
}

/// The warning icon shown for a diagnostic kind.
pub open spec fn spec_icon_path(e: DashboardError) -> Seq<char> {
    match e {
        DashboardError::IncompleteData { .. } => "static/warning_icons/incomplete-data.svg"@,
        DashboardError::StaleData { .. } => "static/warning_icons/stale-data.svg"@,
        DashboardError::UpdateFailed { .. } => "static/warning_icons/update-failed.svg"@,
    }
}

impl Clone for DashboardError {
    fn clone(&self) -> (res: Self)
        ensures
            res == *self,
    {
        match self {
            DashboardError::IncompleteData { details } => DashboardError::IncompleteData {
                details: details.clone(),
            },
            DashboardError::StaleData { details } => DashboardError::StaleData {
                details: details.clone(),
            },
            DashboardError::UpdateFailed { details } => DashboardError::UpdateFailed {
                details: details.clone(),
            },
        }
    }
}

impl DashboardError {
    /// The severity rank; always in `1..=3`.
    pub fn priority(&self) -> (p: u32)
        ensures
            p as int == spec_priority(*self),
            1 <= p <= 3,
    {
        match self {
            DashboardError::IncompleteData { .. } => 3,
            DashboardError::StaleData { .. } => 2,
            DashboardError::UpdateFailed { .. } => 1,
        }
    }

    /// The short banner message for this diagnostic.
    pub fn short_description(&self) -> (r: &'static str)
        ensures
            r@ == spec_short_description(*self),
    {
        match self {
            DashboardError::IncompleteData { .. } => "Incomplete data",
            DashboardError::StaleData { .. } => "Stale data",
            DashboardError::UpdateFailed { .. } => "Update failed",
        }
    }

    /// The detailed description of this diagnostic.
    pub fn long_description(&self) -> (r: &str)
        ensures
            r@ == spec_details(*self),
    {
        match self {
            DashboardError::IncompleteData { details } => details.as_str(),
            DashboardError::StaleData { details } => details.as_str(),
            DashboardError::UpdateFailed { details } => details.as_str(),
        }
    }

    /// The warning icon path for this diagnostic.
    pub fn get_icon_path(&self) -> (r: &'static str)
        ensures
            r@ == spec_icon_path(*self),
    {
        match self {
            DashboardError::IncompleteData { .. } => "static/warning_icons/incomplete-data.svg",
            DashboardError::StaleData { .. } => "static/warning_icons/stale-data.svg",
            DashboardError::UpdateFailed { .. } => "static/warning_icons/update-failed.svg",
        }
    }
}

/// Diagnostics reordered by descending priority. Within one priority the
/// original order is kept, so the element at index 0 is the first-found
/// diagnostic of the highest priority present.
pub open spec fn spec_sorted_by_priority(s: Seq<DashboardError>) -> Seq<DashboardError> {
    s.filter(|e: DashboardError| spec_priority(e) == 3) + s.filter(
        |e: DashboardError| spec_priority(e) == 2,
    ) + s.filter(|e: DashboardError| spec_priority(e) == 1)
}

/// Reordering by priority keeps exactly the diagnostics that were pushed: the
/// result has the same length and the same multiset of elements, and its
/// priorities are non-increasing.
pub proof fn lemma_sorted_by_priority_ensures(s: Seq<DashboardError>)
    ensures
        spec_sorted_by_priority(s).len() == s.len(),
        spec_sorted_by_priority(s).to_multiset() == s.to_multiset(),
        forall|i: int, j: int|
            0 <= i < j < s.len() ==> spec_priority(spec_sorted_by_priority(s)[i]) >= spec_priority(
                spec_sorted_by_priority(s)[j],
            ),
    decreases s.len(),
{
    let p3 = |e: DashboardError| spec_priority(e) == 3;
    let p2 = |e: DashboardError| spec_priority(e) == 2;
    let p1 = |e: DashboardError| spec_priority(e) == 1;
    if s.len() == 0 {
        assert(s.filter(p3) =~= Seq::<DashboardError>::empty()) by {
            reveal(Seq::filter);
        }
        assert(s.filter(p2) =~= Seq::<DashboardError>::empty()) by {
            reveal(Seq::filter);
        }
        assert(s.filter(p1) =~= Seq::<DashboardError>::empty()) by {
            reveal(Seq::filter);
        }
        assert(spec_sorted_by_priority(s) =~= s);
    } else {
        broadcast use vstd::seq_lib::group_to_multiset_ensures;

        let prefix = s.drop_last();
        let e = s.last();
        lemma_sorted_by_priority_ensures(prefix);
        assert(s =~= prefix.push(e));
        prefix.lemma_filter_push(e, p3);
        prefix.lemma_filter_push(e, p2);
        prefix.lemma_filter_push(e, p1);
        assert(1 <= spec_priority(e) <= 3);
        // length: exactly one of the three filters grows by one
        assert(s.filter(p3).len() + s.filter(p2).len() + s.filter(p1).len() == s.len());
        // multiset: concatenation adds the three parts, and pushing `e` adds
        // it to exactly one of them
        vstd::seq_lib::lemma_multiset_commutative(s.filter(p3), s.filter(p2));
        vstd::seq_lib::lemma_multiset_commutative(s.filter(p3) + s.filter(p2), s.filter(p1));
        vstd::seq_lib::lemma_multiset_commutative(prefix.filter(p3), prefix.filter(p2));
        vstd::seq_lib::lemma_multiset_commutative(
            prefix.filter(p3) + prefix.filter(p2),
            prefix.filter(p1),
        );
        assert(spec_sorted_by_priority(s).to_multiset() =~= s.to_multiset());
        // ordering: positions within the concatenation determine the priority
        assert forall|i: int, j: int| 0 <= i < j < s.len() implies spec_priority(
            #[trigger] spec_sorted_by_priority(s)[i],
        ) >= spec_priority(#[trigger] spec_sorted_by_priority(s)[j]) by {
            let sorted = spec_sorted_by_priority(s);
            let n3 = s.filter(p3).len();
            let n2 = s.filter(p2).len();
            if i < n3 {
                s.lemma_filter_pred(p3, i);
            } else if i < n3 + n2 {
                s.lemma_filter_pred(p2, i - n3);
            } else {
                s.lemma_filter_pred(p1, i - n3 - n2);
            }
            if j < n3 {
                s.lemma_filter_pred(p3, j);
            } else if j < n3 + n2 {
                s.lemma_filter_pred(p2, j - n3);
            } else {
                s.lemma_filter_pred(p1, j - n3 - n2);
            }
        }
    }
}

/// The banner-message rule: the head of the priority-ordered diagnostics —
/// whose short description the banner shows — is a diagnostic of the stack
/// with the highest priority present, and the first-found such diagnostic:
/// everything before it in push order ranks strictly lower.
pub proof fn lemma_banner_picks_first_found_max(items: Seq<DashboardError>)
    requires
        items.len() > 0,
    ensures
        exists|k: int|
            {
                &&& 0 <= k < items.len()
                &&& #[trigger] items[k] == spec_sorted_by_priority(items)[0]
                &&& (forall|j: int|
                    0 <= j < items.len() ==> spec_priority(#[trigger] items[j]) <= spec_priority(
                        items[k],
                    ))
                &&& (forall|j: int|
                    0 <= j < k ==> spec_priority(#[trigger] items[j]) < spec_priority(items[k]))
            },
{
    let p3 = |e: DashboardError| spec_priority(e) == 3;
    let p2 = |e: DashboardError| spec_priority(e) == 2;
    let p1 = |e: DashboardError| spec_priority(e) == 1;
    lemma_sorted_by_priority_ensures(items);
    let sorted = spec_sorted_by_priority(items);
    if items.filter(p3).len() > 0 {
        assert(sorted[0] == items.filter(p3)[0]);
        crate::seqfacts::lemma_filter_first_exists(items, p3);
        let k = choose|k: int|
            {
                &&& 0 <= k < items.len()
                &&& p3(#[trigger] items[k])
                &&& (forall|j: int| 0 <= j < k ==> !p3(#[trigger] items[j]))
                &&& items.filter(p3)[0] == items[k]
            };
        assert(forall|j: int|
            0 <= j < items.len() ==> spec_priority(#[trigger] items[j]) <= spec_priority(
                items[k],
            ));
        assert(items[k] == sorted[0]);
    } else if items.filter(p2).len() > 0 {
        crate::seqfacts::lemma_filter_empty_no_match(items, p3);
        assert(sorted[0] == items.filter(p2)[0]);
        crate::seqfacts::lemma_filter_first_exists(items, p2);
        let k = choose|k: int|
            {
                &&& 0 <= k < items.len()
                &&& p2(#[trigger] items[k])
                &&& (forall|j: int| 0 <= j < k ==> !p2(#[trigger] items[j]))
                &&& items.filter(p2)[0] == items[k]
            };
        assert(forall|j: int|
            0 <= j < items.len() ==> spec_priority(#[trigger] items[j]) <= spec_priority(
                items[k],
            ));
        assert(items[k] == sorted[0]);
    } else {
        crate::seqfacts::lemma_filter_empty_no_match(items, p3);
        crate::seqfacts::lemma_filter_empty_no_match(items, p2);
        assert(items.filter(p1).len() == items.len());
        assert(sorted[0] == items.filter(p1)[0]);
        crate::seqfacts::lemma_filter_first_exists(items, p1);
        let k = choose|k: int|
            {
                &&& 0 <= k < items.len()
                &&& p1(#[trigger] items[k])
                &&& (forall|j: int| 0 <= j < k ==> !p1(#[trigger] items[j]))
                &&& items.filter(p1)[0] == items[k]
            };
        assert(forall|j: int|
            0 <= j < items.len() ==> spec_priority(#[trigger] items[j]) <= spec_priority(
                items[k],
            ));
        assert(items[k] == sorted[0]);
    }
}

/// Appends clones of the diagnostics of `items` whose priority equals
/// `target`, in order.
fn append_with_priority(dst: &mut Vec<DashboardError>, items: &Vec<DashboardError>, target: u32)
    requires
        1 <= target <= 3,
    ensures
        final(dst)@ == old(dst)@ + items@.filter(
            |e: DashboardError| spec_priority(e) == target as int,
        ),
{
    let ghost pred = |e: DashboardError| spec_priority(e) == target as int;
    let mut i: usize = 0;
    while i < items.len()
        invariant
            i <= items.len(),
            1 <= target <= 3,
            dst@ == old(dst)@ + items@.take(i as int).filter(pred),
            pred == (|e: DashboardError| spec_priority(e) == target as int),
        decreases items.len() - i,
    {
        proof {
            assert(items@.take(i + 1) =~= items@.take(i as int).push(items@[i as int]));
            items@.take(i as int).lemma_filter_push(items@[i as int], pred);
        }
        if items[i].priority() == target {
            dst.push(items[i].clone());
        }
        i += 1;
    }
    proof {
        assert(items@.take(items@.len() as int) =~= items@);
    }
}

/// Clones the diagnostics reordered by descending priority, original order
/// kept within equal priorities.
fn sorted_by_priority(items: &Vec<DashboardError>) -> (r: Vec<DashboardError>)
    ensures
        r@ == spec_sorted_by_priority(items@),
{
    let mut r: Vec<DashboardError> = Vec::new();
    append_with_priority(&mut r, items, 3);
    append_with_priority(&mut r, items, 2);
    append_with_priority(&mut r, items, 1);
    r
}

/// The icon edge length of one stacked warning icon.
pub open spec fn spec_icon_size() -> int {
    74
}

/// The x offset of the stacked icon at position `i` (0 = highest priority,
/// drawn in front at the largest offset).
pub open spec fn spec_icon_x(i: int) -> int {
    63 - 5 * i
}

/// The y offset of the stacked icon at position `i`.
pub open spec fn spec_icon_y(i: int) -> int {
    -10 - 3 * i
}

/// One SVG image element at a given position showing a given icon.
pub open spec fn spec_image_element(x: int, y: int, icon: Seq<char>) -> Seq<char> {
    "<image x=\""@ + spec_int_digits(x) + "\" y=\""@ + spec_int_digits(y)
        + "\" width=\"74\" height=\"74\" href=\""@ + icon + "\"/>"@
}

/// The image element for position `i` of the reordered diagnostics.
pub open spec fn spec_element_at(sorted: Seq<DashboardError>, i: int) -> Seq<char> {
    spec_image_element(spec_icon_x(i), spec_icon_y(i), spec_icon_path(sorted[i]))
}

/// The image elements for positions `i` down to 0, lowest priority first, so
/// the highest-priority icon is written last and drawn in front.
pub open spec fn spec_svg_suffix(sorted: Seq<DashboardError>, i: nat) -> Seq<char>
    decreases i,
{
    if i == 0 {
        spec_element_at(sorted, 0)
    } else {
        spec_element_at(sorted, i as int) + "\n        "@ + spec_svg_suffix(sorted, (i - 1) as nat)
    }
}

/// The full stacked-icon SVG fragment for a run's diagnostics: empty when
/// there are none.
pub open spec fn spec_icons_svg(items: Seq<DashboardError>) -> Seq<char> {
    let sorted = spec_sorted_by_priority(items);
    if sorted.len() == 0 {
        Seq::<char>::empty()
    } else {
        spec_svg_suffix(sorted, (sorted.len() - 1) as nat)
    }
}

fn image_element(x: i64, y: i64, icon: &'static str) -> (s: String)
    ensures
        s@ == spec_image_element(x as int, y as int, icon@),
{
    let mut s = "<image x=\"".to_owned();
    let xs = i64_to_string(x);
    s.append(xs.as_str());
    s.append("\" y=\"");
    let ys = i64_to_string(y);
    s.append(ys.as_str());
    s.append("\" width=\"74\" height=\"74\" href=\"");
    s.append(icon);
    s.append("\"/>");
    proof {
        assert(s@ =~= spec_image_element(x as int, y as int, icon@));
    }
    s
}

fn svg_suffix(sorted: &Vec<DashboardError>, i: usize) -> (s: String)
    requires
        i < sorted.len(),
        sorted.len() < 100000,
    ensures
        s@ == spec_svg_suffix(sorted@, i as nat),
    decreases i,
{
    let x = 63i64 - 5i64 * (i as i64);
    let y = -10i64 - 3i64 * (i as i64);
    let mut s = image_element(x, y, sorted[i].get_icon_path());
    if i > 0 {
        s.append("\n        ");
        let rest = svg_suffix(sorted, i - 1);
        s.append(rest.as_str());
        proof {
            assert(s@ =~= spec_svg_suffix(sorted@, i as nat));
        }
    }
    s
}

/// An ordered collection of severity-ranked diagnostics for one dashboard
/// run, and the visible banner it renders to.
pub struct DiagnosticStack {
    items: Vec<DashboardError>,
}

impl View for DiagnosticStack {
    type V = Seq<DashboardError>;

    closed spec fn view(&self) -> Seq<DashboardError> {
        self.items@
    }
}

impl DiagnosticStack {
    /// An empty stack: nothing to show.
    pub fn new() -> (r: Self)
        ensures
            r@ == Seq::<DashboardError>::empty(),
    {
        DiagnosticStack { items: Vec::new() }
    }

    /// Appends one diagnostic; earlier diagnostics keep their positions.
    pub fn push(&mut self, e: DashboardError)
        ensures
            final(self)@ == old(self)@.push(e),
    {
        self.items.push(e);
    }

    /// The number of diagnostics collected this run.
    pub fn len(&self) -> (n: usize)
        ensures
            n == self@.len(),
    {
        self.items.len()
    }

    /// The diagnostic at a position, in push order.
    pub fn get(&self, i: usize) -> (r: Option<&DashboardError>)
        ensures
            r is Some <==> i < self@.len(),
            r matches Some(e) ==> *e == self@[i as int],
    {
        if i < self.items.len() {
            Some(&self.items[i])
        } else {
            None
        }
    }

    /// Renders the banner: whether it is visible, the message of the
    /// first-found highest-priority diagnostic, and the stacked-icon SVG
    /// fragment with one image element per diagnostic, highest priority at
    /// the largest offset and written last (visually in front).
    ///
    /// Rendering reads the stack without changing it; calling it twice
    /// returns the same triple.
    #[verifier::rlimit(50)]
    pub fn render(&self) -> (r: (bool, String, String))
        requires
            self@.len() < 100000,
        ensures
            r.0 == (self@.len() > 0),
            self@.len() == 0 ==> r.1@ == Seq::<char>::empty(),
            self@.len() == 0 ==> r.2@ == Seq::<char>::empty(),
            self@.len() > 0 ==> r.1@ == spec_short_description(
                spec_sorted_by_priority(self@)[0],
            ),
            r.2@ == spec_icons_svg(self@),
    {
        proof {
            lemma_sorted_by_priority_ensures(self@);
        }
        let sorted = sorted_by_priority(&self.items);
        if sorted.len() == 0 {
            (false, String::new(), String::new())
        } else {
            let message = sorted[0].short_description().to_owned();
            let svg = svg_suffix(&sorted, sorted.len() - 1);
            (true, message, svg)
        }
    }
}

/// The stacked-icon layout law: the reordered diagnostics keep the original
/// count and elements; their priorities are non-increasing front to back; and
/// both offsets strictly decrease along the stack, so each further icon sits
/// up and to the left of the one before it.
pub proof fn lemma_icon_stack_layout(items: Seq<DashboardError>)
    ensures
        spec_sorted_by_priority(items).len() == items.len(),
        spec_sorted_by_priority(items).to_multiset() == items.to_multiset(),
        forall|i: int, j: int|
            0 <= i < j < items.len() ==> spec_priority(spec_sorted_by_priority(items)[i])
                >= spec_priority(spec_sorted_by_priority(items)[j]),
        forall|i: int, j: int| i < j ==> #[trigger] spec_icon_x(i) > #[trigger] spec_icon_x(j),
        forall|i: int, j: int| i < j ==> #[trigger] spec_icon_y(i) > #[trigger] spec_icon_y(j),
{
    lemma_sorted_by_priority_ensures(items);
}

} // verus!
