//! A registry of per-API [`CallStats`].
//!
//! [`ObsRegistry`] aggregates [`CallStats`] keyed by a `&'static str` API name.
//! Its rows stand in the order of their names, so that the report needs no
//! sorting; a lock around it makes it a registry for many threads.
use vstd::prelude::*;

use super::CallStats;
use crate::text;

verus! {

/// One line of the registry: the API name and its statistics.
pub type Row = (Seq<char>, CallStats);

/// The rows name each key of `stats` once, in the order of names, and hold what
/// `stats` holds.
pub open spec fn lists(rows: Seq<Row>, stats: Map<Seq<char>, CallStats>) -> bool {
    &&& forall|i: int, j: int|
        0 <= i < j < rows.len() ==> text::name_lt((#[trigger] rows[i]).0, (#[trigger] rows[j]).0)
    &&& forall|i: int|
        0 <= i < rows.len() ==> stats.contains_key((#[trigger] rows[i]).0) && stats[rows[i].0]
            == rows[i].1
    &&& forall|name: Seq<char>| #[trigger]
        stats.contains_key(name) ==> exists|i: int|
            0 <= i < rows.len() && (#[trigger] rows[i]).0 == name
}

/// The statistics recorded under `name`, those of no call if there are none.
pub open spec fn stats_of(stats: Map<Seq<char>, CallStats>, name: Seq<char>) -> CallStats {
    if stats.contains_key(name) {
        stats[name]
    } else {
        CallStats::zero()
    }
}

/// The statistics of `before` with one more call under `api`.
pub open spec fn with_call(
    before: Map<Seq<char>, CallStats>,
    api: Seq<char>,
    bytes_out: u64,
    bytes_in: u64,
) -> Map<Seq<char>, CallStats> {
    before.insert(
        api,
        stats_of(before, api).recorded(bytes_out, bytes_in),
    )
}

/// The merged statistics of some rows.
pub open spec fn total_of(rows: Seq<Row>) -> CallStats
    decreases rows.len(),
{
    if rows.len() == 0 {
        CallStats::zero()
    } else {
        total_of(rows.drop_last()).plus(rows.last().1)
    }
}

/// One line of the report.
pub open spec fn line(name: Seq<char>, stats: CallStats) -> Seq<char> {
    "| "@ + name + " | "@ + text::dec(stats.calls as nat) + " | "@ + text::dec(
        stats.bytes_out as nat,
    ) + " | "@ + text::dec(stats.bytes_in as nat) + " |\n"@
}

/// The lines of some rows, one after the other.
pub open spec fn lines(rows: Seq<Row>) -> Seq<char>
    decreases rows.len(),
{
    if rows.len() == 0 {
        seq![]
    } else {
        lines(rows.drop_last()) + line(rows.last().0, rows.last().1)
    }
}

/// The report over some rows: two heading lines, a line for each row, and a
/// line for all of them together.
pub open spec fn report_of(rows: Seq<Row>) -> Seq<char> {
    "| API | Calls | Bytes Out | Bytes In |\n"@ + "| --- | --- | --- | --- |\n"@ + lines(rows)
        + line("TOTAL"@, total_of(rows))
}

/// A collection of [`CallStats`] keyed by API name.
///
/// Records are merged in place, so the registry only ever grows one entry per
/// distinct `&'static str` API name regardless of call volume.
#[derive(Debug)]
pub struct ObsRegistry {
    rows: Vec<(&'static str, CallStats)>,
}

impl View for ObsRegistry {
    type V = Map<Seq<char>, CallStats>;

    /// The statistics by API name.
    closed spec fn view(&self) -> Map<Seq<char>, CallStats> {
        Map::new(
            |name: Seq<char>| has_row(self.spec_rows(), name),
            |name: Seq<char>| self.spec_rows()[row_index(self.spec_rows(), name)].1,
        )
    }
}

/// Whether some row has the given name.
spec fn has_row(rows: Seq<Row>, name: Seq<char>) -> bool {
    exists|i: int| 0 <= i < rows.len() && (#[trigger] rows[i]).0 == name
}

/// A row with the given name.
spec fn row_index(rows: Seq<Row>, name: Seq<char>) -> int {
    choose|i: int| 0 <= i < rows.len() && (#[trigger] rows[i]).0 == name
}

impl ObsRegistry {
    /// The rows of the registry.
    pub closed spec fn spec_rows(&self) -> Seq<Row> {
        Seq::new(self.rows@.len(), |i: int| (self.rows@[i].0@, self.rows@[i].1))
    }

    /// The rows list the statistics.
    pub open spec fn inv(&self) -> bool {
        lists(self.spec_rows(), self@)
    }

    /// Create an empty registry.
    pub fn new() -> (registry: Self)
        ensures
            registry.inv(),
            registry@ == Map::<Seq<char>, CallStats>::empty(),
    {
        let registry = Self { rows: Vec::new() };
        assert(registry@ =~= Map::<Seq<char>, CallStats>::empty());
        registry
    }

    /// Where the row of `api` is, or where it would have to stand.
    fn position(&self, api: &str) -> (r: (usize, bool))
        requires
            self.inv(),
        ensures
            r.0 <= self.spec_rows().len(),
            r.1 ==> r.0 < self.spec_rows().len() && self.spec_rows()[r.0 as int].0 == api@,
            !r.1 ==> {
                &&& forall|k: int|
                    0 <= k < r.0 ==> text::name_lt((#[trigger] self.spec_rows()[k]).0, api@)
                &&& forall|k: int|
                    r.0 <= k < self.spec_rows().len() ==> text::name_lt(
                        api@,
                        (#[trigger] self.spec_rows()[k]).0,
                    )
            },
    {
        let mut i: usize = 0;
        while i < self.rows.len()
            invariant
                self.inv(),
                self.spec_rows().len() == self.rows@.len(),
                i <= self.rows@.len(),
                forall|k: int|
                    0 <= k < i ==> text::name_lt((#[trigger] self.spec_rows()[k]).0, api@),
            decreases self.rows.len() - i,
        {
            let ghost rows = self.spec_rows();
            assert(rows[i as int].0 == self.rows@[i as int].0@);
            match text::name_order(self.rows[i].0, api) {
                text::NameOrder::Before => {
                    i = i + 1;
                },
                text::NameOrder::Same => {
                    return (i, true);
                },
                text::NameOrder::After => {
                    proof {
                        assert forall|k: int| i <= k < rows.len() implies text::name_lt(
                            api@,
                            (#[trigger] rows[k]).0,
                        ) by {
                            if k > i {
                                text::law_name_order_transitive(api@, rows[i as int].0, rows[k].0);
                            }
                        }
                    }
                    return (i, false);
                },
            }
        }
        (i, false)
    }

    /// The statistics of `api`, to be changed in place, with an entry made for them
    /// if needed.
    pub(crate) fn entry(&mut self, api: &'static str) -> (stats: &mut CallStats)
        requires
            old(self).inv(),
        ensures
            *stats == stats_of(old(self)@, api@),
            final(self).inv(),
            final(self)@ == old(self)@.insert(api@, *final(stats)),
            forall|more: CallStats|
                *final(stats) == #[trigger] stats_of(old(self)@, api@).plus(more) ==> total_of(
                    final(self).spec_rows(),
                ) == total_of(old(self).spec_rows()).plus(more),
    {
        let ghost before = self.spec_rows();
        let ghost map = self@;
        let (i, found): (usize, bool) = self.position(api);
        if !found {
            self.rows.insert(i, (api, CallStats::default()));
        }
        let stats = &mut self.rows[i].1;
        proof {
            let last = *final(stats);
            let end = *after_borrow(self);
            let after = end.spec_rows();
            if found {
                assert(after =~= before.update(i as int, (api@, last)));
                lemma_row_changed(before, map, i as int, last);
            } else {
                assert(after =~= before.insert(i as int, (api@, last)));
                lemma_row_added(before, map, i as int, api@, last);
            }
            lemma_view_lists(end);
            lemma_listed_once(after, end@, map.insert(api@, last));
            assert forall|more: CallStats|
                last == #[trigger] stats_of(map, api@).plus(more) implies total_of(after)
                == total_of(before).plus(more) by {
                if found {
                    lemma_total_changed(before, i as int, more);
                } else {
                    lemma_total_added(before, i as int, api@, last);
                }
            }
        }
        stats
    }

    /// Record a single call against `api`, creating its entry if needed.
    ///
    /// Byte counts are accumulated with saturating arithmetic by
    /// [`CallStats::record`].
    pub fn record(&mut self, api: &'static str, bytes_out: u64, bytes_in: u64)
        requires
            old(self).inv(),
        ensures
            final(self).inv(),
            final(self)@ == with_call(old(self)@, api@, bytes_out, bytes_in),
            total_of(final(self).spec_rows()) == total_of(old(self).spec_rows()).recorded(
                bytes_out,
                bytes_in,
            ),
    {
        self.entry(api).record(bytes_out, bytes_in);
    }

    /// Return a point-in-time copy of the per-API statistics, in the order of
    /// names.
    pub fn snapshot(&self) -> (rows: Vec<(&'static str, CallStats)>)
        ensures
            rows_view(rows@) == self.spec_rows(),
    {
        let mut rows: Vec<(&'static str, CallStats)> = Vec::new();
        let mut i: usize = 0;
        while i < self.rows.len()
            invariant
                i <= self.rows@.len(),
                rows@ == self.rows@.take(i as int),
            decreases self.rows.len() - i,
        {
            rows.push(self.rows[i]);
            i = i + 1;
        }
        assert(rows_view(rows@) =~= self.spec_rows());
        rows
    }

    /// Merge every per-API entry into a single aggregate [`CallStats`].
    ///
    /// All fields saturate at [`u64::MAX`] via [`CallStats::merge`].
    pub fn total(&self) -> (total: CallStats)
        ensures
            total == total_of(self.spec_rows()),
    {
        let mut total = CallStats::default();
        let mut i: usize = 0;
        let ghost rows = self.spec_rows();
        while i < self.rows.len()
            invariant
                rows == self.spec_rows(),
                rows.len() == self.rows@.len(),
                i <= rows.len(),
                total == total_of(rows.take(i as int)),
            decreases self.rows.len() - i,
        {
            total.merge(&self.rows[i].1);
            i = i + 1;
            assert(rows.take(i as int).drop_last() =~= rows.take(i - 1));
        }
        assert(rows.take(i as int) =~= rows);
        total
    }

    /// Render the current statistics as a Markdown table.
    ///
    /// The table has columns `| API | Calls | Bytes Out | Bytes In |`, one row
    /// per API in the order of names for deterministic output, followed by a
    /// `TOTAL` row aggregating every API via [`total`](Self::total). Counts are
    /// written as plain integers.
    pub fn report(&self) -> (out: String)
        ensures
            out@ == report_of(self.spec_rows()),
    {
        let mut out = String::new();
        out.append("| API | Calls | Bytes Out | Bytes In |\n");
        out.append("| --- | --- | --- | --- |\n");
        let ghost heading = out@;
        let ghost rows = self.spec_rows();
        let mut i: usize = 0;
        assert(heading + lines(rows.take(0)) =~= heading);
        while i < self.rows.len()
            invariant
                rows == self.spec_rows(),
                rows.len() == self.rows@.len(),
                i <= rows.len(),
                out@ == heading + lines(rows.take(i as int)),
            decreases self.rows.len() - i,
        {
            push_line(&mut out, self.rows[i].0, &self.rows[i].1);
            i = i + 1;
            proof {
                let front = rows.take(i as int);
                assert(front.drop_last() =~= rows.take(i - 1));
                assert(front.last() == rows[i - 1]);
                assert(out@ =~= heading + lines(front));
            }
        }
        assert(rows.take(i as int) =~= rows);
        push_line(&mut out, "TOTAL", &self.total());
        assert(out@ =~= report_of(rows));
        out
    }

    /// The statistics recorded under `api`, if any.
    pub fn get(&self, api: &str) -> (r: Option<CallStats>)
        requires
            self.inv(),
        ensures
            r == if self@.contains_key(api@) {
                Some(self@[api@])
            } else {
                None
            },
    {
        let (i, found): (usize, bool) = self.position(api);
        if found {
            Some(self.rows[i].1)
        } else {
            proof {
                if self@.contains_key(api@) {
                    let k = row_index(self.spec_rows(), api@);
                    text::law_name_order_total(api@, api@);
                }
            }
            None
        }
    }
}

impl Default for ObsRegistry {
    fn default() -> (registry: Self)
        ensures
            registry.inv(),
            registry@ == Map::<Seq<char>, CallStats>::empty(),
    {
        Self::new()
    }
}

/// Copied-out rows as rows.
pub open spec fn rows_view(rows: Seq<(&'static str, CallStats)>) -> Seq<Row> {
    Seq::new(rows.len(), |i: int| (rows[i].0@, rows[i].1))
}

/// Append one line of the report.
fn push_line(out: &mut String, name: &str, stats: &CallStats)
    ensures
        final(out)@ == old(out)@ + line(name@, *stats),
{
    let ghost before = out@;
    out.append("| ");
    out.append(name);
    out.append(" | ");
    text::push_dec(out, stats.calls);
    out.append(" | ");
    text::push_dec(out, stats.bytes_out);
    out.append(" | ");
    text::push_dec(out, stats.bytes_in);
    out.append(" |\n");
    assert(out@ =~= before + line(name@, *stats));
}

/// With names in strict order, the statistics of a registry are those its rows
/// list.
proof fn lemma_view_lists(registry: ObsRegistry)
    requires
        forall|i: int, j: int|
            0 <= i < j < registry.spec_rows().len() ==> text::name_lt(
                (#[trigger] registry.spec_rows()[i]).0,
                (#[trigger] registry.spec_rows()[j]).0,
            ),
    ensures
        registry.inv(),
{
    let rows = registry.spec_rows();
    assert forall|i: int| 0 <= i < rows.len() implies registry@.contains_key((#[trigger] rows[i]).0)
        && registry@[rows[i].0] == rows[i].1 by {
        let k = row_index(rows, rows[i].0);
        text::law_name_order_total(rows[i].0, rows[i].0);
        assert(k == i) by {
            if k < i {
                assert(text::name_lt(rows[k].0, rows[i].0));
            } else if i < k {
                assert(text::name_lt(rows[i].0, rows[k].0));
            }
        }
    }
}

/// Rows list one map only.
proof fn lemma_listed_once(
    rows: Seq<Row>,
    a: Map<Seq<char>, CallStats>,
    b: Map<Seq<char>, CallStats>,
)
    requires
        lists(rows, a),
        lists(rows, b),
    ensures
        a == b,
{
    assert forall|name: Seq<char>| #[trigger] a.contains_key(name) == b.contains_key(name) by {
        if a.contains_key(name) {
            let i = choose|i: int| 0 <= i < rows.len() && (#[trigger] rows[i]).0 == name;
            assert(b.contains_key(rows[i].0));
        }
        if b.contains_key(name) {
            let i = choose|i: int| 0 <= i < rows.len() && (#[trigger] rows[i]).0 == name;
            assert(a.contains_key(rows[i].0));
        }
    }
    assert forall|name: Seq<char>| #[trigger] a.contains_key(name) implies a[name] == b[name] by {
        let i = choose|i: int| 0 <= i < rows.len() && (#[trigger] rows[i]).0 == name;
        assert(rows[i].0 == name);
    }
    assert(a =~= b);
}

/// New statistics in a row are new statistics under its name.
proof fn lemma_row_changed(
    rows: Seq<Row>,
    map: Map<Seq<char>, CallStats>,
    i: int,
    stats: CallStats,
)
    requires
        lists(rows, map),
        0 <= i < rows.len(),
    ensures
        lists(rows.update(i, (rows[i].0, stats)), map.insert(rows[i].0, stats)),
        map.contains_key(rows[i].0),
        map[rows[i].0] == rows[i].1,
{
    let name = rows[i].0;
    let after = rows.update(i, (name, stats));
    let new = map.insert(name, stats);
    text::law_name_order_total(name, name);
    assert forall|k: int| 0 <= k < after.len() implies new.contains_key((#[trigger] after[k]).0)
        && new[after[k].0] == after[k].1 by {
        assert(rows[k].0 == after[k].0);
        if k < i {
            assert(text::name_lt(rows[k].0, rows[i].0));
        } else if i < k {
            assert(text::name_lt(rows[i].0, rows[k].0));
        }
    }
    assert forall|n: Seq<char>| #[trigger] new.contains_key(n) implies exists|k: int|
        0 <= k < after.len() && (#[trigger] after[k]).0 == n by {
        assert(map.contains_key(n));
        let k = choose|k: int| 0 <= k < rows.len() && (#[trigger] rows[k]).0 == n;
        assert(after[k].0 == n);
    }
    assert forall|j: int, k: int| 0 <= j < k < after.len() implies text::name_lt(
        (#[trigger] after[j]).0,
        (#[trigger] after[k]).0,
    ) by {
        assert(text::name_lt(rows[j].0, rows[k].0));
    }
}

/// A new row in its place is a new name with its statistics.
proof fn lemma_row_added(
    rows: Seq<Row>,
    map: Map<Seq<char>, CallStats>,
    i: int,
    name: Seq<char>,
    stats: CallStats,
)
    requires
        lists(rows, map),
        0 <= i <= rows.len(),
        forall|k: int| 0 <= k < i ==> text::name_lt((#[trigger] rows[k]).0, name),
        forall|k: int| i <= k < rows.len() ==> text::name_lt(name, (#[trigger] rows[k]).0),
    ensures
        lists(rows.insert(i, (name, stats)), map.insert(name, stats)),
        !map.contains_key(name),
{
    let after = rows.insert(i, (name, stats));
    let new = map.insert(name, stats);
    text::law_name_order_total(name, name);
    if map.contains_key(name) {
        let k = choose|k: int| 0 <= k < rows.len() && (#[trigger] rows[k]).0 == name;
        assert(rows[k].0 == name);
    }
    assert forall|k: int| 0 <= k < after.len() implies new.contains_key((#[trigger] after[k]).0)
        && new[after[k].0] == after[k].1 by {
        if k < i {
            assert(after[k] == rows[k]);
        } else if i < k {
            assert(after[k] == rows[k - 1]);
        }
    }
    assert forall|n: Seq<char>| #[trigger] new.contains_key(n) implies exists|k: int|
        0 <= k < after.len() && (#[trigger] after[k]).0 == n by {
        if n == name {
            assert(after[i].0 == n);
        } else {
            assert(map.contains_key(n));
            let k = choose|k: int| 0 <= k < rows.len() && (#[trigger] rows[k]).0 == n;
            if k < i {
                assert(after[k].0 == n);
            } else {
                assert(after[k + 1].0 == n);
            }
        }
    }
    assert forall|j: int, k: int| 0 <= j < k < after.len() implies text::name_lt(
        (#[trigger] after[j]).0,
        (#[trigger] after[k]).0,
    ) by {
        if j < i {
            assert(after[j] == rows[j]);
        } else if i < j {
            assert(after[j] == rows[j - 1]);
        }
        if k < i {
            assert(after[k] == rows[k]);
        } else if i < k {
            assert(after[k] == rows[k - 1]);
        }
    }
}

/// More in a row is more in the total.
proof fn lemma_total_changed(rows: Seq<Row>, i: int, more: CallStats)
    requires
        0 <= i < rows.len(),
    ensures
        total_of(rows.update(i, (rows[i].0, rows[i].1.plus(more)))) == total_of(rows).plus(more),
    decreases rows.len(),
{
    let after = rows.update(i, (rows[i].0, rows[i].1.plus(more)));
    if i < rows.len() - 1 {
        lemma_total_changed(rows.drop_last(), i, more);
        assert(after.drop_last() =~= rows.drop_last().update(i, after[i]));
    } else {
        assert(after.drop_last() =~= rows.drop_last());
    }
}

/// A new row is more in the total.
proof fn lemma_total_added(rows: Seq<Row>, i: int, name: Seq<char>, stats: CallStats)
    requires
        0 <= i <= rows.len(),
    ensures
        total_of(rows.insert(i, (name, stats))) == total_of(rows).plus(stats),
    decreases rows.len(),
{
    let after = rows.insert(i, (name, stats));
    if i < rows.len() {
        lemma_total_added(rows.drop_last(), i, name, stats);
        assert(after.drop_last() =~= rows.drop_last().insert(i, (name, stats)));
    } else {
        assert(after.drop_last() =~= rows);
    }
}

/// There is one way to list statistics: the rows of a registry, and with them
/// its total and its report, follow from what was recorded under which name.
pub proof fn law_rows_unique(a: Seq<Row>, b: Seq<Row>, map: Map<Seq<char>, CallStats>)
    requires
        lists(a, map),
        lists(b, map),
    ensures
        a == b,
{
    assert forall|i: int| 0 <= i < a.len() && 0 <= i < b.len() implies a[i] == b[i] by {
        lemma_same_row(a, b, map, i);
    }
    lemma_no_more_rows(a, b, map);
    lemma_no_more_rows(b, a, map);
    assert(a =~= b);
}

/// Two listings agree row by row.
proof fn lemma_same_row(a: Seq<Row>, b: Seq<Row>, map: Map<Seq<char>, CallStats>, i: int)
    requires
        lists(a, map),
        lists(b, map),
        0 <= i < a.len(),
        i < b.len(),
    ensures
        a[i] == b[i],
    decreases i,
{
    assert forall|k: int| 0 <= k < i implies a[k] == b[k] by {
        lemma_same_row(a, b, map, k);
    }
    text::law_name_order_total(a[i].0, b[i].0);
    lemma_not_skipped(a, b, map, i);
    lemma_not_skipped(b, a, map, i);
    assert(map.contains_key(a[i].0));
}

/// A listing does not skip the name that another one has next.
proof fn lemma_not_skipped(a: Seq<Row>, b: Seq<Row>, map: Map<Seq<char>, CallStats>, i: int)
    requires
        lists(a, map),
        lists(b, map),
        0 <= i < a.len(),
        i < b.len(),
        forall|k: int| 0 <= k < i ==> a[k] == b[k],
    ensures
        !text::name_lt(a[i].0, b[i].0),
{
    let name = a[i].0;
    assert(map.contains_key(name));
    let j = choose|j: int| 0 <= j < b.len() && (#[trigger] b[j]).0 == name;
    text::law_name_order_total(name, name);
    if j < i {
        assert(text::name_lt(a[j].0, a[i].0));
    } else if j == i {
    } else {
        assert(text::name_lt(b[i].0, b[j].0));
        text::law_name_order_total(a[i].0, b[i].0);
    }
}

/// A listing has no row beyond those of another one.
proof fn lemma_no_more_rows(a: Seq<Row>, b: Seq<Row>, map: Map<Seq<char>, CallStats>)
    requires
        lists(a, map),
        lists(b, map),
        forall|k: int| 0 <= k < a.len() && k < b.len() ==> a[k] == b[k],
    ensures
        b.len() <= a.len(),
{
    if a.len() < b.len() {
        let n = a.len() as int;
        let name = b[n].0;
        assert(map.contains_key(name));
        let j = choose|j: int| 0 <= j < a.len() && (#[trigger] a[j]).0 == name;
        assert(a[j] == b[j]);
        assert(text::name_lt(b[j].0, b[n].0));
        text::law_name_order_total(name, name);
    }
}

/// A recorded call counts once under its own name, from nothing if it is the first
/// one there, and leaves every other name as it was.
pub proof fn law_call_counts_under_its_name(
    before: Map<Seq<char>, CallStats>,
    api: Seq<char>,
    other: Seq<char>,
    bytes_out: u64,
    bytes_in: u64,
)
    ensures
        ({
            let after = with_call(before, api, bytes_out, bytes_in);
            let was = if before.contains_key(api) {
                before[api]
            } else {
                (CallStats { calls: 0, bytes_out: 0, bytes_in: 0 })
            };
            &&& after.contains_key(api)
            &&& after[api].calls == super::capped(was.calls + 1)
            &&& after[api].bytes_out == super::capped(was.bytes_out + bytes_out)
            &&& after[api].bytes_in == super::capped(was.bytes_in + bytes_in)
            &&& other != api ==> after.contains_key(other) == before.contains_key(other)
            &&& other != api && before.contains_key(other) ==> after[other] == before[other]
        }),
{
}

/// The total over some rows is the sum of their counts, each count staying at its
/// maximum.
pub proof fn law_total_adds_rows(rows: Seq<Row>, row: Row)
    ensures
        total_of(seq![]) == (CallStats { calls: 0, bytes_out: 0, bytes_in: 0 }),
        total_of(rows.push(row)).calls == super::capped(total_of(rows).calls + row.1.calls),
        total_of(rows.push(row)).bytes_out == super::capped(
            total_of(rows).bytes_out + row.1.bytes_out,
        ),
        total_of(rows.push(row)).bytes_in == super::capped(
            total_of(rows).bytes_in + row.1.bytes_in,
        ),
{
    assert(rows.push(row).drop_last() =~= rows);
    assert(rows.push(row).last() == row);
}

/// A line of the report holds a name and three numbers, which read back as the
/// calls, the bytes out and the bytes in, in this order.
pub proof fn law_line_reads_back(name: Seq<char>, stats: CallStats)
    ensures
        exists|calls: Seq<char>, bytes_out: Seq<char>, bytes_in: Seq<char>|
            {
                &&& line(name, stats) == "| "@ + name + " | "@ + calls + " | "@ + bytes_out
                    + " | "@ + bytes_in + " |\n"@
                &&& #[trigger] text::number(calls) == Some(stats.calls as nat)
                &&& #[trigger] text::number(bytes_out) == Some(stats.bytes_out as nat)
                &&& #[trigger] text::number(bytes_in) == Some(stats.bytes_in as nat)
            },
{
    let calls = text::dec(stats.calls as nat);
    let bytes_out = text::dec(stats.bytes_out as nat);
    let bytes_in = text::dec(stats.bytes_in as nat);
    text::law_dec_reads_back(stats.calls as nat);
    text::law_dec_reads_back(stats.bytes_out as nat);
    text::law_dec_reads_back(stats.bytes_in as nat);
    assert(line(name, stats) == "| "@ + name + " | "@ + calls + " | "@ + bytes_out + " | "@
        + bytes_in + " |\n"@);
    assert(text::number(calls) == Some(stats.calls as nat) && text::number(bytes_out) == Some(
        stats.bytes_out as nat,
    ) && text::number(bytes_in) == Some(stats.bytes_in as nat));
}

/// The report gives each row a line, in the order of the rows, and ends with one
/// for the total of them all.
pub proof fn law_report_lists_rows(rows: Seq<Row>, row: Row)
    ensures
        lines(seq![]) == Seq::<char>::empty(),
        lines(rows.push(row)) == lines(rows) + line(row.0, row.1),
        report_of(rows) == "| API | Calls | Bytes Out | Bytes In |\n"@
            + "| --- | --- | --- | --- |\n"@ + lines(rows) + line("TOTAL"@, total_of(rows)),
{
    assert(rows.push(row).drop_last() =~= rows);
    assert(rows.push(row).last() == row);
}

/// The report of a registry shows every name that something was recorded under, in
/// a line with its three counts, and ends with a line for the total.
pub proof fn law_report_shows(registry: &ObsRegistry, out: String, name: Seq<char>)
    requires
        call_ensures(ObsRegistry::report, (registry,), out),
        registry.inv(),
        registry@.contains_key(name),
    ensures
        exists|front: Seq<char>, back: Seq<char>|
            out@ == #[trigger] (front + line(name, registry@[name]) + back) + line(
                "TOTAL"@,
                total_of(registry.spec_rows()),
            ),
{
    let rows = registry.spec_rows();
    let i = choose|i: int| 0 <= i < rows.len() && (#[trigger] rows[i]).0 == name;
    let back = lemma_lines_around(rows, i);
    let front = "| API | Calls | Bytes Out | Bytes In |\n"@ + "| --- | --- | --- | --- |\n"@ + lines(
        rows.take(i),
    );
    assert(out@ =~= (front + line(name, registry@[name]) + back) + line("TOTAL"@, total_of(rows)));
}

/// The lines of the report around that of row `i`.
proof fn lemma_lines_around(rows: Seq<Row>, i: int) -> (back: Seq<char>)
    requires
        0 <= i < rows.len(),
    ensures
        lines(rows) == lines(rows.take(i)) + line(rows[i].0, rows[i].1) + back,
    decreases rows.len(),
{
    let n = rows.len() - 1;
    if i == n {
        assert(rows.drop_last() =~= rows.take(i));
        assert(lines(rows) =~= lines(rows.take(i)) + line(rows[i].0, rows[i].1) + seq![]);
        seq![]
    } else {
        let back = lemma_lines_around(rows.drop_last(), i);
        assert(rows.drop_last().take(i) =~= rows.take(i));
        let all = back + line(rows.last().0, rows.last().1);
        assert(lines(rows) =~= lines(rows.take(i)) + line(rows[i].0, rows[i].1) + all);
        all
    }
}

/// Recording adds one call and its bytes under its name, and nothing under any
/// other; what is recorded under a name can be got back under it, and only there;
/// a new registry holds nothing.
pub proof fn law_record_and_get(
    registry: &mut ObsRegistry,
    reader: &ObsRegistry,
    new: ObsRegistry,
    api: &'static str,
    name: &str,
    got: Option<CallStats>,
    bytes_out: u64,
    bytes_in: u64,
)
    ensures
        call_ensures(ObsRegistry::record, (registry, api, bytes_out, bytes_in), ()) ==> {
            let was = if old(registry)@.contains_key(api@) {
                old(registry)@[api@]
            } else {
                (CallStats { calls: 0, bytes_out: 0, bytes_in: 0 })
            };
            &&& final(registry)@.contains_key(api@)
            &&& final(registry)@[api@].calls == super::capped(was.calls + 1)
            &&& final(registry)@[api@].bytes_out == super::capped(was.bytes_out + bytes_out)
            &&& final(registry)@[api@].bytes_in == super::capped(was.bytes_in + bytes_in)
            &&& forall|other: Seq<char>|
                other != api@ ==> {
                    &&& #[trigger] final(registry)@.contains_key(other)
                        == old(registry)@.contains_key(other)
                    &&& old(registry)@.contains_key(other) ==> final(registry)@[other]
                        == old(registry)@[other]
                }
        },
        call_ensures(ObsRegistry::get, (reader, name), got) ==> {
            &&& got is Some <==> reader@.contains_key(name@)
            &&& got matches Some(stats) ==> stats == reader@[name@]
        },
        call_ensures(ObsRegistry::new, (), new) ==> !new@.contains_key(name@),
{
}

/// A snapshot lists what the registry holds under each name, once each, in the
/// order of names; and the total is that of the rows it lists.
pub proof fn law_snapshot_lists(
    registry: &ObsRegistry,
    rows: Vec<(&'static str, CallStats)>,
    total: CallStats,
    name: Seq<char>,
)
    requires
        registry.inv(),
        call_ensures(ObsRegistry::snapshot, (registry,), rows),
        call_ensures(ObsRegistry::total, (registry,), total),
    ensures
        forall|i: int, j: int|
            0 <= i < j < rows@.len() ==> text::name_lt(
                (#[trigger] rows@[i]).0@,
                (#[trigger] rows@[j]).0@,
            ),
        forall|i: int|
            0 <= i < rows@.len() ==> registry@.contains_key((#[trigger] rows@[i]).0@)
                && registry@[rows@[i].0@] == rows@[i].1,
        registry@.contains_key(name) ==> exists|i: int|
            0 <= i < rows@.len() && (#[trigger] rows@[i]).0@ == name,
        total == total_of(rows_view(rows@)),
{
    let listed = rows_view(rows@);
    assert forall|i: int, j: int| 0 <= i < j < rows@.len() implies text::name_lt(
        (#[trigger] rows@[i]).0@,
        (#[trigger] rows@[j]).0@,
    ) by {
        assert(text::name_lt(listed[i].0, listed[j].0));
    }
    assert forall|i: int| 0 <= i < rows@.len() implies registry@.contains_key(
        (#[trigger] rows@[i]).0@,
    ) && registry@[rows@[i].0@] == rows@[i].1 by {
        assert(listed[i] == (rows@[i].0@, rows@[i].1));
    }
    if registry@.contains_key(name) {
        let i = choose|i: int| 0 <= i < listed.len() && (#[trigger] listed[i]).0 == name;
        assert(rows@[i].0@ == name);
    }
}

} // verus!
