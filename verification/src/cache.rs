//! The line cache: the part of a document that the front-end holds, and how
//! an update script turns one cache into the next.
//!
//! A cache stands for a document of `invalid_before + lines.len() +
//! invalid_after` lines: a run of lines that are known to exist but whose
//! content is unknown, then the lines that are held, then another unknown run.
//! An update script is read from left to right against the old cache. A
//! running index says how many lines of the old cache the script has used up;
//! the new cache is built up beside it and replaces the old one only when the
//! whole script has been applied.

use vstd::prelude::*;
use crate::line::{line_views, trim_new_line, Line, LineView};
use crate::operation::{operation_views, Operation, OperationType, OperationView, Update};

verus! {

/// Why an update script was refused.
#[derive(Clone, Copy, Debug, PartialEq, Eq, Structural)]
pub enum CacheError {
    /// An operation uses more lines than the old cache has left.
    IndexOverrun,
    /// An update is aimed at a line whose content is unknown.
    InvalidLine,
    /// An update brings fewer lines than it is to change.
    MissingLines,
    /// The document would have more lines than a line number can count.
    TooManyLines,
}

/// The lines of a document that the front-end holds, between two runs of
/// lines that it knows only by their number.
#[derive(Debug, PartialEq, Eq)]
pub struct LineCache {
    pub invalid_before: u64,
    pub lines: Vec<Line>,
    pub invalid_after: u64,
}

/// What a `LineCache` holds.
pub struct CacheView {
    pub invalid_before: nat,
    pub lines: Seq<LineView>,
    pub invalid_after: nat,
}

/// `x`, moved into the range from `low` to `high` when it lies outside.
pub open spec fn clip(x: int, low: int, high: int) -> int {
    if x < low {
        low
    } else if x > high {
        high
    } else {
        x
    }
}

impl CacheView {
    /// The number of lines of the document that the cache stands for.
    pub open spec fn height(self) -> nat {
        self.invalid_before + self.lines.len() + self.invalid_after
    }

    /// The index, in the document, of the line after the last one held.
    pub open spec fn held_end(self) -> nat {
        self.invalid_before + self.lines.len()
    }

    /// How many of the document's lines `low..high` lie in the unknown run
    /// before the lines held.
    pub open spec fn unknown_before(self, low: nat, high: nat) -> nat {
        (clip(high as int, 0, self.invalid_before as int) - clip(
            low as int,
            0,
            self.invalid_before as int,
        )) as nat
    }

    /// The lines held among the document's lines `low..high`.
    pub open spec fn held(self, low: nat, high: nat) -> Seq<LineView> {
        self.lines.subrange(
            clip(low - self.invalid_before, 0, self.lines.len() as int),
            clip(high - self.invalid_before, 0, self.lines.len() as int),
        )
    }

    /// How many of the document's lines `low..high` lie in the unknown run
    /// after the lines held.
    pub open spec fn unknown_after(self, low: nat, high: nat) -> nat {
        (clip(high as int, self.held_end() as int, self.height() as int) - clip(
            low as int,
            self.held_end() as int,
            self.height() as int,
        )) as nat
    }
}

impl View for LineCache {
    type V = CacheView;

    open spec fn view(&self) -> CacheView {
        CacheView {
            invalid_before: self.invalid_before as nat,
            lines: line_views(self.lines@),
            invalid_after: self.invalid_after as nat,
        }
    }
}

/// How far an update script has come: the number of lines of the old cache
/// that it has used up, and the new cache as built so far.
pub struct Progress {
    pub old_index: nat,
    pub invalid_before: nat,
    pub lines: Seq<LineView>,
    pub invalid_after: nat,
}

impl Progress {
    /// Nothing used up, nothing built.
    pub open spec fn start() -> Progress {
        Progress { old_index: 0, invalid_before: 0, lines: Seq::empty(), invalid_after: 0 }
    }

    /// The cache built so far.
    pub open spec fn cache(self) -> CacheView {
        CacheView {
            invalid_before: self.invalid_before,
            lines: self.lines,
            invalid_after: self.invalid_after,
        }
    }

    /// The number of lines of the cache built so far.
    pub open spec fn height(self) -> nat {
        self.cache().height()
    }

    /// With `count` more unknown lines. They count as lying before the lines
    /// held as long as no line is held, and as lying after them from then on.
    pub open spec fn with_unknown(self, count: nat) -> Progress {
        if self.lines.len() == 0 {
            Progress { invalid_before: self.invalid_before + count, ..self }
        } else {
            Progress { invalid_after: self.invalid_after + count, ..self }
        }
    }

    /// With `count` more unknown lines after the lines held.
    pub open spec fn with_unknown_after(self, count: nat) -> Progress {
        Progress { invalid_after: self.invalid_after + count, ..self }
    }

    /// With `lines` added to the lines held.
    pub open spec fn with_lines(self, lines: Seq<LineView>) -> Progress {
        Progress { lines: self.lines + lines, ..self }
    }

    /// With `count` more lines of the old cache used up.
    pub open spec fn advanced(self, count: nat) -> Progress {
        Progress { old_index: self.old_index + count, ..self }
    }

    /// This progress, unless the cache built so far has more lines than a
    /// line number can count.
    pub open spec fn checked(self) -> Result<Progress, CacheError> {
        if self.height() > u64::MAX {
            Err(CacheError::TooManyLines)
        } else {
            Ok(self)
        }
    }
}

/// The progress after the next `count` lines of `source` were copied: unknown
/// lines stay unknown, lines held are added to the lines held. The lines
/// copied from the unknown run before the lines of `source` count as lying
/// before the lines held as long as no line is held, and after them from then
/// on; those copied from the unknown run after the lines of `source` always
/// count as lying after.
pub open spec fn copied(source: CacheView, progress: Progress, count: nat) -> Result<
    Progress,
    CacheError,
> {
    let low = progress.old_index;
    let high = low + count;
    if high > source.height() {
        Err(CacheError::IndexOverrun)
    } else {
        progress.with_unknown(source.unknown_before(low, high)).with_lines(
            source.held(low, high),
        ).with_unknown_after(source.unknown_after(low, high)).advanced(count).checked()
    }
}

/// The progress after the next `count` lines of `source` were dropped.
pub open spec fn skipped(source: CacheView, progress: Progress, count: nat) -> Result<
    Progress,
    CacheError,
> {
    if progress.old_index + count > source.height() {
        Err(CacheError::IndexOverrun)
    } else {
        Ok(progress.advanced(count))
    }
}

/// The progress after `count` unknown lines were added. No line of the old
/// cache is used up.
pub open spec fn invalidated(progress: Progress, count: nat) -> Result<Progress, CacheError> {
    progress.with_unknown(count).checked()
}

/// The progress after `lines` were added, each without the newline that ends
/// its text. No line of the old cache is used up.
pub open spec fn inserted(progress: Progress, lines: Seq<LineView>) -> Result<
    Progress,
    CacheError,
> {
    progress.with_lines(lines.map_values(|line: LineView| line.trimmed())).checked()
}

/// The next `count` lines of `source`, which must all be held, each with the
/// cursors and styles of the line of `lines` at the same place.
pub open spec fn restyled_lines(
    source: CacheView,
    progress: Progress,
    count: nat,
    lines: Seq<LineView>,
) -> Seq<LineView> {
    Seq::new(
        count,
        |i: int| source.lines[progress.old_index - source.invalid_before + i].restyled(lines[i]),
    )
}

/// The progress after the next `count` lines of `source` were taken over with
/// the cursors and styles that `lines` brings for them.
pub open spec fn restyled(
    source: CacheView,
    progress: Progress,
    count: nat,
    lines: Seq<LineView>,
) -> Result<Progress, CacheError> {
    let low = progress.old_index;
    let high = low + count;
    if high > source.height() {
        Err(CacheError::IndexOverrun)
    } else if low < source.invalid_before || high > source.held_end() {
        Err(CacheError::InvalidLine)
    } else if lines.len() < count {
        Err(CacheError::MissingLines)
    } else {
        progress.with_lines(restyled_lines(source, progress, count, lines)).advanced(
            count,
        ).checked()
    }
}

/// The progress after one operation.
pub open spec fn applied(source: CacheView, progress: Progress, operation: OperationView) -> Result<
    Progress,
    CacheError,
> {
    match operation.operation_type {
        OperationType::Copy_ => copied(source, progress, operation.nb_lines),
        OperationType::Skip => skipped(source, progress, operation.nb_lines),
        OperationType::Invalidate => invalidated(progress, operation.nb_lines),
        OperationType::Insert => inserted(progress, operation.lines),
        OperationType::Update => restyled(source, progress, operation.nb_lines, operation.lines),
    }
}

/// The progress after the operations of a script, applied from left to right;
/// the error of the first operation that fails.
pub open spec fn applied_all(
    source: CacheView,
    progress: Progress,
    operations: Seq<OperationView>,
) -> Result<Progress, CacheError>
    decreases operations.len(),
{
    if operations.len() == 0 {
        Ok(progress)
    } else {
        match applied(source, progress, operations[0]) {
            Ok(next) => applied_all(source, next, operations.drop_first()),
            Err(error) => Err(error),
        }
    }
}

/// The cache that a script makes of the cache `source`.
pub open spec fn updated(source: CacheView, operations: Seq<OperationView>) -> Result<
    CacheView,
    CacheError,
> {
    if source.height() > u64::MAX {
        Err(CacheError::TooManyLines)
    } else {
        match applied_all(source, Progress::start(), operations) {
            Ok(progress) => Ok(progress.cache()),
            Err(error) => Err(error),
        }
    }
}

/// The number of lines of the old cache that a script uses up: those that it
/// copies, drops or takes over.
pub open spec fn lines_consumed(operations: Seq<OperationView>) -> nat
    decreases operations.len(),
{
    if operations.len() == 0 {
        0
    } else {
        let rest = lines_consumed(operations.drop_first());
        match operations[0].operation_type {
            OperationType::Copy_ | OperationType::Skip | OperationType::Update => {
                operations[0].nb_lines + rest
            },
            _ => rest,
        }
    }
}

/// The number of lines that a script drops.
pub open spec fn lines_skipped(operations: Seq<OperationView>) -> nat
    decreases operations.len(),
{
    if operations.len() == 0 {
        0
    } else {
        let rest = lines_skipped(operations.drop_first());
        match operations[0].operation_type {
            OperationType::Skip => operations[0].nb_lines + rest,
            _ => rest,
        }
    }
}

/// The number of unknown lines that a script adds.
pub open spec fn lines_invalidated(operations: Seq<OperationView>) -> nat
    decreases operations.len(),
{
    if operations.len() == 0 {
        0
    } else {
        let rest = lines_invalidated(operations.drop_first());
        match operations[0].operation_type {
            OperationType::Invalidate => operations[0].nb_lines + rest,
            _ => rest,
        }
    }
}

/// The number of lines that a script brings in.
pub open spec fn lines_inserted(operations: Seq<OperationView>) -> nat
    decreases operations.len(),
{
    if operations.len() == 0 {
        0
    } else {
        let rest = lines_inserted(operations.drop_first());
        match operations[0].operation_type {
            OperationType::Insert => operations[0].lines.len() + rest,
            _ => rest,
        }
    }
}

/// Every line of the cache that a script builds is accounted for: it was
/// copied or taken over from the old cache, added as unknown, or brought in.
/// The script uses up as many lines of the old cache as its copies, drops
/// and updates name.
pub proof fn lemma_applied_all_counts(
    source: CacheView,
    progress: Progress,
    operations: Seq<OperationView>,
)
    requires
        applied_all(source, progress, operations) is Ok,
    ensures
        applied_all(source, progress, operations)->Ok_0.old_index == progress.old_index
            + lines_consumed(operations),
        applied_all(source, progress, operations)->Ok_0.height() + lines_skipped(operations)
            == progress.height() + lines_consumed(operations) + lines_invalidated(operations)
            + lines_inserted(operations),
        progress.old_index <= source.height() ==> applied_all(
            source,
            progress,
            operations,
        )->Ok_0.old_index <= source.height(),
    decreases operations.len(),
{
    if operations.len() > 0 {
        let next = applied(source, progress, operations[0])->Ok_0;
        lemma_applied_all_counts(source, next, operations.drop_first());
    }
}

/// The line count after an update: the count before it, plus the lines that
/// the script brought in, minus the lines that it dropped. This holds of a
/// script that accounts for each line of the old cache, by using it up or by
/// adding an unknown line in its place.
pub proof fn lemma_update_preserves_line_count(source: CacheView, operations: Seq<OperationView>)
    requires
        updated(source, operations) is Ok,
        lines_consumed(operations) + lines_invalidated(operations) == source.height(),
    ensures
        updated(source, operations)->Ok_0.height() == source.height() + lines_inserted(operations)
            - lines_skipped(operations),
{
    lemma_applied_all_counts(source, Progress::start(), operations);
}

/// The line count after any update: the lines that the script used up and did
/// not drop, the unknown lines that it added, and the lines that it brought
/// in.
pub proof fn lemma_update_line_count(source: CacheView, operations: Seq<OperationView>)
    requires
        updated(source, operations) is Ok,
    ensures
        updated(source, operations)->Ok_0.height() + lines_skipped(operations) == lines_consumed(
            operations,
        ) + lines_invalidated(operations) + lines_inserted(operations),
        lines_consumed(operations) <= source.height(),
{
    lemma_applied_all_counts(source, Progress::start(), operations);
}

/// Dropping `count` lines and then copying the `count` lines after them adds
/// to the lines held exactly the lines that the old cache holds in the copied
/// range, and nothing else.
pub proof fn lemma_skip_then_copy(source: CacheView, progress: Progress, count: nat)
    requires
        skipped(source, progress, count) is Ok,
        copied(source, skipped(source, progress, count)->Ok_0, count) is Ok,
    ensures
        ({
            let low = progress.old_index + count;
            let high = low + count;
            let after = copied(source, skipped(source, progress, count)->Ok_0, count)->Ok_0;
            &&& after.lines == progress.lines + source.held(low, high)
            &&& after.lines.len() - progress.lines.len() == source.held(low, high).len()
            &&& source.held(low, high).len() == clip(
                high - source.invalid_before,
                0,
                source.lines.len() as int,
            ) - clip(low - source.invalid_before, 0, source.lines.len() as int)
            &&& after.old_index == high
        }),
{
}

impl LineCache {
    /// The document's line count fits in a line number.
    pub open spec fn wf(&self) -> bool {
        self@.height() <= u64::MAX
    }

    /// The cache of an empty document.
    pub fn new() -> (cache: Self)
        ensures
            cache.wf(),
            cache@ == (CacheView { invalid_before: 0, lines: Seq::empty(), invalid_after: 0 }),
    {
        let cache = LineCache { invalid_before: 0, lines: Vec::new(), invalid_after: 0 };
        assert(cache@.lines =~= Seq::empty());
        cache
    }

    /// Whether the cache holds no line.
    pub fn is_empty(&self) -> (empty: bool)
        ensures
            empty == (self@.lines.len() == 0),
    {
        self.lines.len() == 0
    }

    /// Whether the document's line count fits in a line number.
    pub fn is_valid(&self) -> (valid: bool)
        ensures
            valid == self.wf(),
    {
        self.invalid_before as u128 + self.lines.len() as u128 + self.invalid_after as u128
            <= u64::MAX as u128
    }

    /// The number of lines of the document.
    pub fn height(&self) -> (height: u64)
        requires
            self.wf(),
        ensures
            height == self@.height(),
    {
        self.invalid_before + self.lines.len() as u64 + self.invalid_after
    }

    /// Applies an update script. Either the whole script applies and the
    /// cache becomes what the script makes of it, or the first failure is
    /// reported and the cache stays as it was.
    pub fn update(&mut self, update: Update) -> (result: Result<(), CacheError>)
        ensures
            match updated(old(self)@, operation_views(update.operations@)) {
                Ok(cache) => result is Ok && final(self)@ == cache && final(self).wf(),
                Err(error) => result == Err::<(), CacheError>(error) && *final(self) == *old(self),
            },
    {
        if !self.is_valid() {
            return Err(CacheError::TooManyLines);
        }
        let mut helper = UpdateHelper::new();
        match helper.update(self, &update.operations) {
            Ok(()) => {
                self.invalid_before = helper.new_invalid_before;
                self.lines = helper.new_lines;
                self.invalid_after = helper.new_invalid_after;
                Ok(())
            },
            Err(error) => Err(error),
        }
    }
}

/// The state of an update script that is being applied: how many lines of
/// the old cache are used up, and the new cache as built so far.
#[derive(Debug)]
pub struct UpdateHelper {
    old_index: u64,
    new_invalid_before: u64,
    new_lines: Vec<Line>,
    new_invalid_after: u64,
}

impl View for UpdateHelper {
    type V = Progress;

    closed spec fn view(&self) -> Progress {
        Progress {
            old_index: self.old_index as nat,
            invalid_before: self.new_invalid_before as nat,
            lines: line_views(self.new_lines@),
            invalid_after: self.new_invalid_after as nat,
        }
    }
}

impl UpdateHelper {
    /// The new cache fits in a line number, and no more lines are used up
    /// than `source` has.
    pub open spec fn wf(&self, source: CacheView) -> bool {
        &&& self@.height() <= u64::MAX
        &&& self@.old_index <= source.height()
    }

    /// The state before the first operation.
    pub fn new() -> (helper: Self)
        ensures
            helper@ == Progress::start(),
    {
        let helper = UpdateHelper {
            old_index: 0,
            new_invalid_before: 0,
            new_lines: Vec::new(),
            new_invalid_after: 0,
        };
        assert(helper@.lines =~= Seq::empty());
        helper
    }

    /// The number of lines of the cache built so far.
    fn height(&self) -> (height: u64)
        requires
            self@.height() <= u64::MAX,
        ensures
            height == self@.height(),
    {
        self.new_invalid_before + self.new_lines.len() as u64 + self.new_invalid_after
    }

    /// Adds `count` unknown lines: before the lines held as long as no line is
    /// held, after them from then on.
    fn add_unknown(&mut self, count: u64)
        requires
            old(self)@.height() + count <= u64::MAX,
        ensures
            final(self)@ == old(self)@.with_unknown(count as nat),
    {
        if self.new_lines.len() == 0 {
            self.new_invalid_before = self.new_invalid_before + count;
        } else {
            self.new_invalid_after = self.new_invalid_after + count;
        }
    }

    /// Adds `count` unknown lines after the lines held.
    fn add_unknown_after(&mut self, count: u64)
        requires
            old(self)@.height() + count <= u64::MAX,
        ensures
            final(self)@ == old(self)@.with_unknown_after(count as nat),
    {
        self.new_invalid_after = self.new_invalid_after + count;
    }

    /// Adds `line` to the lines held.
    fn add_line(&mut self, line: Line)
        ensures
            final(self)@ == old(self)@.with_lines(seq![line@]),
    {
        self.new_lines.push(line);
        assert(line_views(self.new_lines@) =~= line_views(old(self).new_lines@) + seq![line@]);
    }

    /// Copies the next `nb_lines` lines of `source`.
    pub fn apply_copy(&mut self, source: &LineCache, nb_lines: u64) -> (result: Result<
        (),
        CacheError,
    >)
        requires
            source.wf(),
            old(self).wf(source@),
        ensures
            match copied(source@, old(self)@, nb_lines as nat) {
                Ok(progress) => result is Ok && final(self)@ == progress && final(self).wf(source@),
                Err(error) => result == Err::<(), CacheError>(error) && *final(self) == *old(self),
            },
    {
        let low = self.old_index;
        if nb_lines > source.height() - low {
            return Err(CacheError::IndexOverrun);
        }
        let high = low + nb_lines;
        let ghost before = source@.unknown_before(low as nat, high as nat);
        let ghost held = source@.held(low as nat, high as nat);
        let ghost after = source@.unknown_after(low as nat, high as nat);
        assert(before + held.len() + after == nb_lines);
        if nb_lines > u64::MAX - self.height() {
            return Err(CacheError::TooManyLines);
        }
        let held_start = source.invalid_before;
        let held_end = source.invalid_before + source.lines.len() as u64;
        if low < held_start {
            let end = if high < held_start {
                high
            } else {
                held_start
            };
            self.add_unknown(end - low);
        }
        let first: usize = if low < held_start {
            0
        } else if low > held_end {
            source.lines.len()
        } else {
            (low - held_start) as usize
        };
        let last: usize = if high < held_start {
            0
        } else if high > held_end {
            source.lines.len()
        } else {
            (high - held_start) as usize
        };
        let ghost base = self@;
        let mut i = first;
        while i < last
            invariant
                first <= i <= last <= source.lines.len(),
                held == line_views(source.lines@).subrange(first as int, last as int),
                self@ == base.with_lines(held.take(i - first)),
            decreases last - i,
        {
            let ghost so_far = self@;
            self.add_line(source.lines[i].clone());
            assert(held.take(i - first) + seq![source.lines[i as int]@] =~= held.take(i + 1 - first));
            assert(so_far.lines + seq![source.lines[i as int]@] =~= base.lines + held.take(
                i + 1 - first,
            ));
            i = i + 1;
        }
        assert(held.take(last - first) =~= held);
        if high > held_end {
            let start = if low > held_end {
                low
            } else {
                held_end
            };
            self.add_unknown_after(high - start);
        }
        self.old_index = high;
        Ok(())
    }

    /// Drops the next `nb_lines` lines of `source`.
    pub fn apply_skip(&mut self, source: &LineCache, nb_lines: u64) -> (result: Result<
        (),
        CacheError,
    >)
        requires
            source.wf(),
            old(self).wf(source@),
        ensures
            match skipped(source@, old(self)@, nb_lines as nat) {
                Ok(progress) => result is Ok && final(self)@ == progress && final(self).wf(source@),
                Err(error) => result == Err::<(), CacheError>(error) && *final(self) == *old(self),
            },
    {
        if nb_lines > source.height() - self.old_index {
            return Err(CacheError::IndexOverrun);
        }
        self.old_index = self.old_index + nb_lines;
        Ok(())
    }

    /// Adds `nb_lines` unknown lines.
    pub fn apply_invalidate(&mut self, nb_lines: u64) -> (result: Result<(), CacheError>)
        requires
            old(self)@.height() <= u64::MAX,
        ensures
            match invalidated(old(self)@, nb_lines as nat) {
                Ok(progress) => result is Ok && final(self)@ == progress,
                Err(error) => result == Err::<(), CacheError>(error) && *final(self) == *old(self),
            },
    {
        if nb_lines > u64::MAX - self.height() {
            return Err(CacheError::TooManyLines);
        }
        self.add_unknown(nb_lines);
        Ok(())
    }

    /// Adds `lines`, each without the newline that ends its text.
    pub fn apply_insert(&mut self, lines: &Vec<Line>) -> (result: Result<(), CacheError>)
        requires
            old(self)@.height() <= u64::MAX,
        ensures
            match inserted(old(self)@, line_views(lines@)) {
                Ok(progress) => result is Ok && final(self)@ == progress,
                Err(error) => result == Err::<(), CacheError>(error) && *final(self) == *old(self),
            },
    {
        if lines.len() as u64 > u64::MAX - self.height() {
            return Err(CacheError::TooManyLines);
        }
        let ghost base = self@;
        let ghost trimmed = line_views(lines@).map_values(|line: LineView| line.trimmed());
        let mut i: usize = 0;
        while i < lines.len()
            invariant
                i <= lines.len(),
                trimmed == line_views(lines@).map_values(|line: LineView| line.trimmed()),
                self@ == base.with_lines(trimmed.take(i as int)),
            decreases lines.len() - i,
        {
            let ghost so_far = self@;
            let mut line = lines[i].clone();
            trim_new_line(&mut line.text);
            self.add_line(line);
            assert(trimmed.take(i as int) + seq![line@] =~= trimmed.take(i + 1));
            assert(so_far.lines + seq![line@] =~= base.lines + trimmed.take(i + 1));
            i = i + 1;
        }
        assert(trimmed.take(lines.len() as int) =~= trimmed);
        Ok(())
    }

    /// Takes over the next `nb_lines` lines of `source` with the cursors and
    /// styles that `lines` brings for them.
    pub fn apply_update(&mut self, source: &LineCache, nb_lines: u64, lines: &Vec<Line>) -> (result:
        Result<(), CacheError>)
        requires
            source.wf(),
            old(self).wf(source@),
        ensures
            match restyled(source@, old(self)@, nb_lines as nat, line_views(lines@)) {
                Ok(progress) => result is Ok && final(self)@ == progress && final(self).wf(source@),
                Err(error) => result == Err::<(), CacheError>(error) && *final(self) == *old(self),
            },
    {
        let low = self.old_index;
        if nb_lines > source.height() - low {
            return Err(CacheError::IndexOverrun);
        }
        let high = low + nb_lines;
        if low < source.invalid_before || high > source.invalid_before + source.lines.len() as u64 {
            return Err(CacheError::InvalidLine);
        }
        if (lines.len() as u64) < nb_lines {
            return Err(CacheError::MissingLines);
        }
        if nb_lines > u64::MAX - self.height() {
            return Err(CacheError::TooManyLines);
        }
        let first = (low - source.invalid_before) as usize;
        let count = nb_lines as usize;
        let ghost base = self@;
        let ghost changed = restyled_lines(source@, base, nb_lines as nat, line_views(lines@));
        let mut i: usize = 0;
        while i < count
            invariant
                i <= count,
                count == nb_lines,
                first == base.old_index - source@.invalid_before,
                first + count <= source.lines.len(),
                count <= lines.len(),
                changed == restyled_lines(source@, base, nb_lines as nat, line_views(lines@)),
                self@ == base.with_lines(changed.take(i as int)),
            decreases count - i,
        {
            let ghost so_far = self@;
            let line = Line {
                text: source.lines[first + i].text.clone(),
                cursor: lines[i].cursor.clone(),
                styles: lines[i].styles.clone(),
            };
            self.add_line(line);
            assert(line@ == changed[i as int]);
            assert(changed.take(i as int) + seq![line@] =~= changed.take(i + 1));
            assert(so_far.lines + seq![line@] =~= base.lines + changed.take(i + 1));
            i = i + 1;
        }
        assert(changed.take(count as int) =~= changed);
        self.old_index = high;
        Ok(())
    }

    /// Applies the operations of a script from left to right, and stops at
    /// the first that fails.
    pub fn update(&mut self, source: &LineCache, operations: &Vec<Operation>) -> (result: Result<
        (),
        CacheError,
    >)
        requires
            source.wf(),
            old(self).wf(source@),
        ensures
            match applied_all(source@, old(self)@, operation_views(operations@)) {
                Ok(progress) => result is Ok && final(self)@ == progress && final(self).wf(source@),
                Err(error) => result == Err::<(), CacheError>(error),
            },
    {
        let ghost script = operation_views(operations@);
        assert(script.skip(0) =~= script);
        let mut i: usize = 0;
        while i < operations.len()
            invariant
                i <= operations.len(),
                source.wf(),
                self.wf(source@),
                script == operation_views(operations@),
                applied_all(source@, old(self)@, script) == applied_all(
                    source@,
                    self@,
                    script.skip(i as int),
                ),
            decreases operations.len() - i,
        {
            let ghost rest = script.skip(i as int);
            assert(rest[0] == operations[i as int]@);
            assert(rest.drop_first() =~= script.skip(i + 1));
            match operations[i].apply(source, self) {
                Ok(()) => {},
                Err(error) => {
                    return Err(error);
                },
            }
            i = i + 1;
        }
        Ok(())
    }
}

impl Operation {
    /// Applies this operation to the script's state `helper`, against the
    /// old cache `source`. On failure the state stays as it was.
    pub fn apply(&self, source: &LineCache, helper: &mut UpdateHelper) -> (result: Result<
        (),
        CacheError,
    >)
        requires
            source.wf(),
            old(helper).wf(source@),
        ensures
            match applied(source@, old(helper)@, self@) {
                Ok(progress) => result is Ok && final(helper)@ == progress && final(helper).wf(
                    source@,
                ),
                Err(error) => result == Err::<(), CacheError>(error) && *final(helper) == *old(
                    helper,
                ),
            },
    {
        match self.operation_type {
            OperationType::Copy_ => helper.apply_copy(source, self.nb_lines),
            OperationType::Skip => helper.apply_skip(source, self.nb_lines),
            OperationType::Invalidate => helper.apply_invalidate(self.nb_lines),
            OperationType::Insert => helper.apply_insert(&self.lines),
            OperationType::Update => helper.apply_update(source, self.nb_lines, &self.lines),
        }
    }
}

} // verus!
