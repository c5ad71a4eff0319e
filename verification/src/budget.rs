//! The allowance of lines and bytes that a rendered scan stays within.
use crate::text::{views, views_push};
use vstd::prelude::*;
use vstd::utf8::encode_utf8;

verus! {

/// The most lines of a rendered scan.
pub const REPORT_MAX_LINES: usize = 4000;

/// The most bytes of a rendered scan, before any of it is escaped.
pub const REPORT_MAX_BYTES: usize = 524288;

/// What is left of an allowance, and whether something did not fit.
#[derive(Clone, Copy)]
pub struct Budget {
    pub lines: usize,
    pub bytes: usize,
    pub truncated: bool,
}

/// A block of lines, and whether something of it is missing.
#[verifier::ext_equal]
pub struct BlockView {
    pub lines: Seq<Seq<char>>,
    pub truncated: bool,
}

/// A block rendered under an allowance of its own.
#[derive(Debug, PartialEq, Eq)]
pub struct Block {
    pub lines: Vec<String>,
    pub truncated: bool,
}

impl Block {
    pub open spec fn view(&self) -> BlockView {
        BlockView { lines: views(self.lines@), truncated: self.truncated }
    }
}

/// The whole allowance.
pub open spec fn full_budget() -> Budget {
    Budget { lines: REPORT_MAX_LINES, bytes: REPORT_MAX_BYTES, truncated: false }
}

/// Whether an allowance takes another line.
pub open spec fn takes(budget: Budget, line: Seq<char>) -> bool {
    !budget.truncated && budget.lines > 0 && encode_utf8(line).len() <= budget.bytes
}

/// What is left after a line was offered: a line that does not fit uses nothing
/// up and ends the list.
pub open spec fn spent(budget: Budget, line: Seq<char>) -> Budget {
    if takes(budget, line) {
        Budget {
            lines: (budget.lines - 1) as usize,
            bytes: (budget.bytes - encode_utf8(line).len()) as usize,
            truncated: false,
        }
    } else {
        Budget { truncated: true, ..budget }
    }
}

/// The lines after a line was offered.
pub open spec fn grown(budget: Budget, lines: Seq<Seq<char>>, line: Seq<char>) -> Seq<Seq<char>> {
    if takes(budget, line) {
        lines.push(line)
    } else {
        lines
    }
}

/// What is left after lines were offered, up to the first that does not fit.
pub open spec fn spent_on(budget: Budget, offered: Seq<Seq<char>>) -> Budget
    decreases offered.len(),
{
    if offered.len() == 0 {
        budget
    } else {
        spent(spent_on(budget, offered.drop_last()), offered.last())
    }
}

/// How many of the lines fit.
pub open spec fn fitting(budget: Budget, offered: Seq<Seq<char>>) -> nat
    decreases offered.len(),
{
    if offered.len() == 0 {
        0
    } else {
        let count = fitting(budget, offered.drop_last());
        if takes(spent_on(budget, offered.drop_last()), offered.last()) {
            count + 1
        } else {
            count
        }
    }
}

/// What is left after a block was moved in. What the block was missing stays
/// missing.
pub open spec fn after_block(budget: Budget, block: BlockView) -> Budget {
    let left = spent_on(budget, block.lines);
    Budget { truncated: left.truncated || block.truncated, ..left }
}

/// The lines after a block was moved in.
pub open spec fn with_block(budget: Budget, lines: Seq<Seq<char>>, block: BlockView) -> Seq<
    Seq<char>,
> {
    lines + block.lines.take(fitting(budget, block.lines) as int)
}

/// The bytes of lines.
pub open spec fn bytes_in(lines: Seq<Seq<char>>) -> nat
    decreases lines.len(),
{
    if lines.len() == 0 {
        0
    } else {
        bytes_in(lines.drop_last()) + encode_utf8(lines.last()).len()
    }
}

// ---------------------------------------------------------------------- laws --

/// What a line uses up is what the list grows by.
pub proof fn lines_are_paid_for(budget: Budget, lines: Seq<Seq<char>>, line: Seq<char>)
    ensures
        spent(budget, line).lines + grown(budget, lines, line).len() == budget.lines + lines.len(),
        spent(budget, line).bytes + bytes_in(grown(budget, lines, line)) == budget.bytes + bytes_in(
            lines,
        ),
        budget.truncated ==> spent(budget, line).truncated,
{
    assert(lines.push(line).drop_last() =~= lines);
}

proof fn spent_stops(budget: Budget, offered: Seq<Seq<char>>)
    ensures
        fitting(budget, offered) <= offered.len(),
        !spent_on(budget, offered).truncated ==> fitting(budget, offered) == offered.len(),
        budget.truncated ==> spent_on(budget, offered).truncated && fitting(budget, offered) == 0,
    decreases offered.len(),
{
    if offered.len() > 0 {
        spent_stops(budget, offered.drop_last());
    }
}

proof fn bytes_in_append(left: Seq<Seq<char>>, right: Seq<Seq<char>>)
    ensures
        bytes_in(left + right) == bytes_in(left) + bytes_in(right),
    decreases right.len(),
{
    if right.len() == 0 {
        assert(left + right =~= left);
    } else {
        bytes_in_append(left, right.drop_last());
        assert((left + right).drop_last() =~= left + right.drop_last());
    }
}

proof fn offered_lines_are_paid_for(budget: Budget, offered: Seq<Seq<char>>)
    ensures
        spent_on(budget, offered).lines + fitting(budget, offered) == budget.lines,
        spent_on(budget, offered).bytes + bytes_in(
            offered.take(fitting(budget, offered) as int),
        ) == budget.bytes,
    decreases offered.len(),
{
    if offered.len() == 0 {
        assert(offered.take(0) =~= Seq::<Seq<char>>::empty());
    } else {
        let rest = offered.drop_last();
        offered_lines_are_paid_for(budget, rest);
        spent_stops(budget, rest);
        let before = spent_on(budget, rest);
        let count = fitting(budget, rest);
        if takes(before, offered.last()) {
            assert(count == rest.len());
            assert(offered.take(offered.len() as int) =~= offered);
            assert(rest.take(count as int) =~= rest);
        } else {
            assert(offered.take(count as int) =~= rest.take(count as int));
        }
    }
}

/// What a block uses up is what the list grows by.
pub proof fn blocks_are_paid_for(budget: Budget, lines: Seq<Seq<char>>, block: BlockView)
    ensures
        after_block(budget, block).lines + with_block(budget, lines, block).len() == budget.lines
            + lines.len(),
        after_block(budget, block).bytes + bytes_in(with_block(budget, lines, block))
            == budget.bytes + bytes_in(lines),
        budget.truncated ==> after_block(budget, block).truncated,
{
    offered_lines_are_paid_for(budget, block.lines);
    spent_stops(budget, block.lines);
    bytes_in_append(lines, block.lines.take(fitting(budget, block.lines) as int));
}

/// A block that was whole and fits comes in whole, and nothing is called
/// truncated then.
pub proof fn nothing_is_lost_silently(budget: Budget, lines: Seq<Seq<char>>, block: BlockView)
    ensures
        !after_block(budget, block).truncated ==> !block.truncated && with_block(
            budget,
            lines,
            block,
        ) == lines + block.lines,
{
    spent_stops(budget, block.lines);
    if !after_block(budget, block).truncated {
        assert(block.lines.take(block.lines.len() as int) =~= block.lines);
    }
}

// --------------------------------------------------------------- functions --

impl Budget {
    /// The whole allowance.
    pub fn new() -> (budget: Budget)
        ensures
            budget == full_budget(),
    {
        Budget { lines: REPORT_MAX_LINES, bytes: REPORT_MAX_BYTES, truncated: false }
    }

    /// Whether another line can still be offered.
    pub fn accepting(&self) -> (yes: bool)
        ensures
            yes == (!self.truncated && self.lines > 0),
    {
        !self.truncated && self.lines > 0
    }

    /// Offers a line, and says whether it was taken.
    pub fn push(&mut self, lines: &mut Vec<String>, line: String) -> (taken: bool)
        ensures
            taken == takes(*old(self), line@),
            *final(self) == spent(*old(self), line@),
            views(final(lines)@) == grown(*old(self), views(old(lines)@), line@),
    {
        broadcast use views_push;

        let length = line.as_str().as_bytes().len();
        if self.truncated || self.lines == 0 || length > self.bytes {
            self.truncated = true;
            return false;
        }
        self.lines = self.lines - 1;
        self.bytes = self.bytes - length;
        lines.push(line);
        true
    }

    /// Moves a block in, up to its first line that does not fit.
    pub fn absorb(&mut self, lines: &mut Vec<String>, block: Block)
        ensures
            *final(self) == after_block(*old(self), block@),
            views(final(lines)@) == with_block(*old(self), views(old(lines)@), block@),
    {
        let ghost before = *self;
        let ghost first = views(lines@);
        let ghost offered = views(block.lines@);
        let truncated = block.truncated;
        assert(offered.take(0) =~= Seq::<Seq<char>>::empty());
        assert(first + offered.take(0) =~= first);
        for line in iter: block.lines
            invariant
                iter.seq() == block.lines@,
                offered == views(block.lines@),
                *self == spent_on(before, offered.take(iter.index() as int)),
                views(lines@) == first + offered.take(iter.index() as int),
                fitting(before, offered.take(iter.index() as int)) == iter.index(),
                iter.index() > 0 ==> !self.truncated,
                block@.lines == offered,
                before == *old(self),
                first == views(old(lines)@),
        {
            let ghost at = iter.index() as int;
            assert(offered.take(at + 1).drop_last() =~= offered.take(at));
            assert(offered.take(at + 1).last() == line@);
            if !self.push(lines, line) {
                proof {
                    stays_stopped(before, offered, at + 1);
                    assert(offered.take(fitting(before, offered) as int) =~= offered.take(at));
                }
                return;
            }
            assert(views(lines@) =~= first + offered.take(at + 1));
        }
        assert(offered.take(offered.len() as int) =~= offered);
        self.truncated = self.truncated || truncated;
    }
}

proof fn stays_stopped(budget: Budget, offered: Seq<Seq<char>>, at: int)
    requires
        0 <= at <= offered.len(),
        spent_on(budget, offered.take(at)).truncated,
    ensures
        spent_on(budget, offered) == spent_on(budget, offered.take(at)),
        fitting(budget, offered) == fitting(budget, offered.take(at)),
    decreases offered.len() - at,
{
    if at < offered.len() {
        assert(offered.take(at + 1).drop_last() =~= offered.take(at));
        let left = spent_on(budget, offered.take(at));
        assert(spent_on(budget, offered.take(at + 1)) == left);
        stays_stopped(budget, offered, at + 1);
    } else {
        assert(offered.take(at) =~= offered);
    }
}

} // verus!
