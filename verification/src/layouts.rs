//! Layouts put the displays of several entities together into one block of
//! text, side by side or one above the other, with or without a frame.
use vstd::prelude::*;
use crate::order::{stable_order, stable_order_of};
use crate::strutil::{push_repeated, repeated};
use crate::text::{lines_view, FrameType, InfoGrid, JointType, TextFormatting};

verus! {

/// The direction in which a layout lines up what it wraps.
#[derive(Clone, Copy, Debug, PartialEq, Eq, Structural)]
pub enum LayoutDirection {
    Horizontal,
    Vertical,
}

/// How much room an element of a layout gets.
#[derive(Clone, Copy, Debug, PartialEq, Eq, Structural)]
pub enum LayoutWeight {
    /// The element gets this many lines or characters.
    Absolute(usize),
    /// The element gets a share of what the absolute elements leave: its
    /// weight out of the sum of all such weights.
    Distribute(usize),
}

impl LayoutWeight {
    /// The number that the weight holds.
    pub open spec fn spec_amount(self) -> usize {
        match self {
            LayoutWeight::Absolute(d) => d,
            LayoutWeight::Distribute(d) => d,
        }
    }

    /// The number that the weight holds.
    pub fn amount(&self) -> (amount: usize)
        ensures
            amount == self.spec_amount(),
    {
        match self {
            LayoutWeight::Absolute(d) => *d,
            LayoutWeight::Distribute(d) => *d,
        }
    }
}

/// The sum of the absolute weights.
pub open spec fn absolute_total(weights: Seq<LayoutWeight>) -> nat
    decreases weights.len(),
{
    if weights.len() == 0 {
        0
    } else {
        absolute_total(weights.drop_last()) + (match weights.last() {
            LayoutWeight::Absolute(d) => d as nat,
            LayoutWeight::Distribute(_) => 0nat,
        })
    }
}

/// The sum of the weights that share what is left.
pub open spec fn relative_total(weights: Seq<LayoutWeight>) -> nat
    decreases weights.len(),
{
    if weights.len() == 0 {
        0
    } else {
        relative_total(weights.drop_last()) + (match weights.last() {
            LayoutWeight::Absolute(_) => 0nat,
            LayoutWeight::Distribute(d) => d as nat,
        })
    }
}

/// What the absolute weights leave of `size`.
pub open spec fn left_to_share(weights: Seq<LayoutWeight>, size: nat) -> nat {
    if absolute_total(weights) > size {
        0
    } else {
        (size - absolute_total(weights)) as nat
    }
}

/// The length that an element gets to begin with: its absolute weight, or
/// its share of what is left, rounded down.
pub open spec fn first_length(weight: LayoutWeight, weights: Seq<LayoutWeight>, size: nat) -> nat {
    match weight {
        LayoutWeight::Absolute(d) => d as nat,
        LayoutWeight::Distribute(d) => if relative_total(weights) == 0 {
            0
        } else {
            ((left_to_share(weights, size) * d) as int / relative_total(weights) as int) as nat
        },
    }
}

/// A count as the 32 bits of a signed number.
pub open spec fn as_signed_32(r: int) -> int {
    let low = r % 0x1_0000_0000;
    if low >= 0x8000_0000 {
        low - 0x1_0000_0000
    } else {
        low
    }
}

/// The key by which elements queue for what rounding has left over: what is
/// left of the division for an element with a share, and a key below all of
/// these for the others.
pub open spec fn leftover_key(weight: LayoutWeight, weights: Seq<LayoutWeight>, size: nat) -> i64 {
    match weight {
        LayoutWeight::Absolute(_) => -200i64,
        LayoutWeight::Distribute(d) => if relative_total(weights) == 0 {
            -200i64
        } else {
            as_signed_32(
                (left_to_share(weights, size) * d) as int % relative_total(weights) as int,
            ) as i64
        },
    }
}

/// The first lengths of all elements.
pub open spec fn first_lengths(weights: Seq<LayoutWeight>, size: nat) -> Seq<usize> {
    Seq::new(weights.len(), |i: int| first_length(weights[i], weights, size) as usize)
}

/// The keys of all elements.
pub open spec fn leftover_keys(weights: Seq<LayoutWeight>, size: nat) -> Seq<i64> {
    Seq::new(weights.len(), |i: int| leftover_key(weights[i], weights, size))
}

/// The sum of a list of lengths.
pub open spec fn lengths_total(lengths: Seq<usize>) -> nat
    decreases lengths.len(),
{
    if lengths.len() == 0 {
        0
    } else {
        lengths_total(lengths.drop_last()) + lengths.last() as nat
    }
}

/// `lengths` after the first `k` of `order` have each got one more, as far
/// as a length can grow.
pub open spec fn raised_upto(lengths: Seq<usize>, order: Seq<usize>, k: nat) -> Seq<usize>
    decreases k,
{
    if k == 0 || k > order.len() {
        lengths
    } else {
        let earlier = raised_upto(lengths, order, (k - 1) as nat);
        let i = order[k - 1] as int;
        if i < earlier.len() && earlier[i] < usize::MAX {
            earlier.update(i, (earlier[i] + 1) as usize)
        } else {
            earlier
        }
    }
}

/// How `size` is divided among elements of the given weights.
///
/// An absolute weight is the length of its element. What the absolute
/// weights leave is shared by the other elements in proportion to their
/// weights, rounded down. What then is still left of `size` goes out one by
/// one, in ascending order of [`leftover_key`] and in the order of the
/// elements among equal keys.
pub open spec fn distributed(weights: Seq<LayoutWeight>, size: nat) -> Seq<usize> {
    let lengths = first_lengths(weights, size);
    let used = lengths_total(lengths);
    let left: nat = if used > size {
        0
    } else {
        (size - used) as nat
    };
    let order = stable_order(leftover_keys(weights, size));
    raised_upto(
        lengths,
        order,
        if left < order.len() {
            left
        } else {
            order.len()
        },
    )
}

/// A sum of lengths is at most as many times the largest length.
pub proof fn lemma_lengths_total_bound(lengths: Seq<usize>)
    ensures
        lengths_total(lengths) <= lengths.len() * usize::MAX,
    decreases lengths.len(),
{
    if lengths.len() > 0 {
        lemma_lengths_total_bound(lengths.drop_last());
        assert((lengths.len() - 1) * usize::MAX + usize::MAX == lengths.len() * usize::MAX)
            by (nonlinear_arith);
    }
}

/// A share of what is left is no more than what is left.
pub proof fn lemma_share_bound(left: int, d: int, total: int)
    requires
        0 <= left,
        0 <= d <= total,
        0 < total,
    ensures
        0 <= (left * d) / total <= left,
{
    vstd::arithmetic::mul::lemma_mul_inequality(d, total, left);
    vstd::arithmetic::mul::lemma_mul_nonnegative(left, d);
    assert(d * left == left * d) by (nonlinear_arith);
    vstd::arithmetic::div_mod::lemma_div_is_ordered(left * d, total * left, total);
    vstd::arithmetic::div_mod::lemma_div_is_ordered(0, left * d, total);
    vstd::arithmetic::div_mod::lemma_div_multiples_vanish(left, total);
}

/// A weight that shares is part of the sum of the weights that share.
pub proof fn lemma_relative_part(weights: Seq<LayoutWeight>, i: int)
    requires
        0 <= i < weights.len(),
    ensures
        weights[i] matches LayoutWeight::Distribute(d) ==> d <= relative_total(weights),
    decreases weights.len(),
{
    if i < weights.len() - 1 {
        lemma_relative_part(weights.drop_last(), i);
    }
}

/// How many of the weights share what is left.
pub open spec fn sharers(weights: Seq<LayoutWeight>) -> nat
    decreases weights.len(),
{
    if weights.len() == 0 {
        0
    } else {
        sharers(weights.drop_last()) + (match weights.last() {
            LayoutWeight::Absolute(_) => 0nat,
            LayoutWeight::Distribute(_) => 1nat,
        })
    }
}

/// The first lengths of the first `k` elements add up to their absolute
/// weights and their shares of `left`; and the shares fall short of what is
/// due to the weights by less than one for each element that shares.
proof fn lemma_first_lengths_total(weights: Seq<LayoutWeight>, size: nat, k: nat)
    requires
        k <= weights.len(),
        size <= usize::MAX,
        relative_total(weights) > 0,
    ensures
        lengths_total(first_lengths(weights, size).take(k as int)) >= absolute_total(
            weights.take(k as int),
        ),
        relative_total(weights) * (lengths_total(first_lengths(weights, size).take(k as int))
            - absolute_total(weights.take(k as int))) <= left_to_share(weights, size)
            * relative_total(weights.take(k as int)),
        left_to_share(weights, size) * relative_total(weights.take(k as int)) - relative_total(
            weights,
        ) * (lengths_total(first_lengths(weights, size).take(k as int)) - absolute_total(
            weights.take(k as int),
        )) <= sharers(weights.take(k as int)) * (relative_total(weights) - 1),
        sharers(weights.take(k as int)) <= k,
    decreases k,
{
    let first = first_lengths(weights, size);
    let left = left_to_share(weights, size) as int;
    let total = relative_total(weights) as int;
    if k > 0 {
        let j = (k - 1) as nat;
        lemma_first_lengths_total(weights, size, j);
        assert(first.take(k as int).drop_last() =~= first.take(j as int));
        assert(weights.take(k as int).drop_last() =~= weights.take(j as int));
        let before = lengths_total(first.take(j as int)) - absolute_total(weights.take(j as int));
        let due_before = relative_total(weights.take(j as int)) as int;
        match weights[j as int] {
            LayoutWeight::Absolute(d) => {
            },
            LayoutWeight::Distribute(d) => {
                lemma_relative_part(weights, j as int);
                lemma_share_bound(left, d as int, total);
                let q = (left * d) / total;
                vstd::arithmetic::div_mod::lemma_fundamental_div_mod(left * d, total);
                vstd::arithmetic::div_mod::lemma_mod_bound(left * d, total);
                assert(total * (before + q) == total * before + total * q) by (nonlinear_arith);
                assert(left * (due_before + d) == left * due_before + left * d)
                    by (nonlinear_arith);
                let shared = sharers(weights.take(j as int)) as int;
                assert((shared + 1) * (total - 1) == shared * (total - 1) + (total - 1))
                    by (nonlinear_arith);
            },
        }
    } else {
        assert(left * 0 == 0);
    }
}

/// Replacing one length changes the sum by the difference between the two.
proof fn lemma_lengths_total_update(lengths: Seq<usize>, i: int, v: usize)
    requires
        0 <= i < lengths.len(),
    ensures
        lengths_total(lengths.update(i, v)) + lengths[i] == lengths_total(lengths) + v,
        lengths[i] <= lengths_total(lengths),
    decreases lengths.len(),
{
    let updated = lengths.update(i, v);
    if i == lengths.len() - 1 {
        assert(updated.drop_last() =~= lengths.drop_last());
    } else {
        assert(updated.drop_last() =~= lengths.drop_last().update(i, v));
        lemma_lengths_total_update(lengths.drop_last(), i, v);
    }
}

/// Raising the first `k` of an arrangement raises the sum by `k`, as long as
/// the sum stays within the range of a length; and no position behind the
/// first `k` has changed.
proof fn lemma_raised_total(lengths: Seq<usize>, order: Seq<usize>, k: nat)
    requires
        crate::order::is_arrangement(order, lengths.len()),
        k <= order.len(),
        lengths_total(lengths) + k <= usize::MAX,
    ensures
        raised_upto(lengths, order, k).len() == lengths.len(),
        lengths_total(raised_upto(lengths, order, k)) == lengths_total(lengths) + k,
        forall|j: int|
            k <= j < order.len() ==> raised_upto(lengths, order, k)[(#[trigger] order[j]) as int]
                == lengths[order[j] as int],
    decreases k,
{
    if k > 0 {
        lemma_raised_total(lengths, order, (k - 1) as nat);
        let earlier = raised_upto(lengths, order, (k - 1) as nat);
        let i = order[k - 1] as int;
        lemma_lengths_total_update(earlier, i, (earlier[i] + 1) as usize);
        let raised = raised_upto(lengths, order, k);
        assert forall|j: int| k <= j < order.len() implies raised[(#[trigger] order[j]) as int]
            == lengths[order[j] as int] by {
        }
    }
}

/// Where the absolute weights fit and some weight shares what they leave,
/// the lengths add up to the size: nothing is lost to rounding.
pub proof fn lemma_distributed_total(weights: Seq<LayoutWeight>, size: nat)
    requires
        weights.len() <= usize::MAX,
        size <= usize::MAX,
        absolute_total(weights) <= size,
        relative_total(weights) > 0,
    ensures
        lengths_total(distributed(weights, size)) == size,
{
    let n = weights.len();
    let lengths = first_lengths(weights, size);
    let used = lengths_total(lengths) as int;
    let left = left_to_share(weights, size) as int;
    let total = relative_total(weights) as int;
    lemma_first_lengths_total(weights, size, n);
    assert(lengths.take(n as int) =~= lengths);
    assert(weights.take(n as int) =~= weights);
    let shares = used - absolute_total(weights);
    let shared = sharers(weights) as int;
    // total * shares <= left * total <= total * shares + shared * (total - 1)
    assert(shares <= left) by (nonlinear_arith)
        requires
            total * shares <= left * total,
            total > 0,
    ;
    assert(left - shares < shared || left - shares == 0) by (nonlinear_arith)
        requires
            left * total - total * shares <= shared * (total - 1),
            total > 0,
            shared >= 0,
            left - shares >= 0,
    ;
    let rest = (size - used) as nat;
    let order = stable_order(leftover_keys(weights, size));
    crate::order::lemma_stable_order(leftover_keys(weights, size));
    lemma_raised_total(lengths, order, rest);
}

/// The sums of the absolute weights and of the weights that share.
pub fn weight_totals(weights: &Vec<LayoutWeight>) -> (totals: (u128, u128))
    ensures
        totals.0 == absolute_total(weights@),
        totals.1 == relative_total(weights@),
{
    let mut absolute_amount: u128 = 0;
    let mut total_relative_weights: u128 = 0;
    let mut i: usize = 0;
    while i < weights.len()
        invariant
            i <= weights.len(),
            absolute_amount == absolute_total(weights@.take(i as int)),
            total_relative_weights == relative_total(weights@.take(i as int)),
            absolute_amount <= i * 0xffff_ffff_ffff_ffff,
            total_relative_weights <= i * 0xffff_ffff_ffff_ffff,
        decreases weights.len() - i,
    {
        proof {
            assert(weights@.take(i + 1).drop_last() =~= weights@.take(i as int));
        }
        match weights[i] {
            LayoutWeight::Absolute(d) => {
                absolute_amount = absolute_amount + d as u128;
            },
            LayoutWeight::Distribute(d) => {
                total_relative_weights = total_relative_weights + d as u128;
            },
        }
        i += 1;
    }
    assert(weights@.take(weights.len() as int) =~= weights@);
    (absolute_amount, total_relative_weights)
}

/// The 32 bits of a count as a signed number.
pub fn signed_32(r: u128) -> (key: i64)
    ensures
        key == as_signed_32(r as int),
{
    let low = r % 0x1_0000_0000;
    if low >= 0x8000_0000 {
        low as i64 - 0x1_0000_0000
    } else {
        low as i64
    }
}

/// Divides `size` among elements of the given weights: see
/// [`distributed`].
pub fn distribute_sizes(weights: &Vec<LayoutWeight>, size: usize) -> (lengths: Vec<usize>)
    ensures
        lengths@ == distributed(weights@, size as nat),
{
    // What the absolute weights take, and what there is to share
    let (absolute_amount, total_relative_weights) = weight_totals(weights);
    let available_for_distribution: u128 = if absolute_amount > size as u128 {
        0
    } else {
        size as u128 - absolute_amount
    };
    // The length of every element to begin with, and its key for what is
    // left over
    let mut calculated_lengths: Vec<usize> = Vec::new();
    let mut keys: Vec<i64> = Vec::new();
    let mut used: u128 = 0;
    let mut i: usize = 0;
    let ghost first = first_lengths(weights@, size as nat);
    let ghost queue = leftover_keys(weights@, size as nat);
    while i < weights.len()
        invariant
            i <= weights.len(),
            absolute_amount == absolute_total(weights@),
            total_relative_weights == relative_total(weights@),
            available_for_distribution == left_to_share(weights@, size as nat),
            first == first_lengths(weights@, size as nat),
            queue == leftover_keys(weights@, size as nat),
            calculated_lengths@ == first.take(i as int),
            keys@ == queue.take(i as int),
            used == lengths_total(first.take(i as int)),
            used <= i * 0xffff_ffff_ffff_ffff,
        decreases weights.len() - i,
    {
        proof {
            assert(first.take(i + 1).drop_last() =~= first.take(i as int));
            lemma_relative_part(weights@, i as int);
        }
        let (length, key): (usize, i64) = match weights[i] {
            // An absolute weight gets nothing of what is left over at first.
            LayoutWeight::Absolute(w) => (w, -200),
            LayoutWeight::Distribute(w) => {
                if total_relative_weights == 0 {
                    (0, -200)
                } else {
                    proof {
                        lemma_share_bound(
                            available_for_distribution as int,
                            w as int,
                            total_relative_weights as int,
                        );
                        vstd::arithmetic::mul::lemma_mul_upper_bound(
                            available_for_distribution as int,
                            0xffff_ffff_ffff_ffff,
                            w as int,
                            0xffff_ffff_ffff_ffff,
                        );
                        vstd::arithmetic::mul::lemma_mul_nonnegative(
                            available_for_distribution as int,
                            w as int,
                        );
                    }
                    let numerator: u128 = available_for_distribution * (w as u128);
                    (
                        (numerator / total_relative_weights) as usize,
                        signed_32(numerator % total_relative_weights),
                    )
                }
            },
        };
        calculated_lengths.push(length);
        keys.push(key);
        used = used + length as u128;
        i += 1;
    }
    assert(first.take(weights.len() as int) =~= first);
    assert(queue.take(weights.len() as int) =~= queue);
    // Who has the smallest key is served first.
    let indices = stable_order_of(&keys);
    let undistributed: u128 = if used > size as u128 {
        0
    } else {
        size as u128 - used
    };
    let rounds: usize = if undistributed < indices.len() as u128 {
        undistributed as usize
    } else {
        indices.len()
    };
    let mut k: usize = 0;
    while k < rounds
        invariant
            k <= rounds <= indices.len(),
            calculated_lengths@ == raised_upto(first, indices@, k as nat),
        decreases rounds - k,
    {
        let i = indices[k];
        if i < calculated_lengths.len() && calculated_lengths[i] < usize::MAX {
            let raised = calculated_lengths[i] + 1;
            calculated_lengths.set(i, raised);
        }
        k += 1;
    }
    calculated_lengths
}

/// A layout that lines up what it wraps in one direction.
pub struct LinearLayout<'a> {
    /// The direction in which the elements are lined up
    direction: LayoutDirection,
    /// With a frame, some of the room goes to its strokes around and between
    /// the elements.
    frame: Option<FrameType>,
    /// The elements, each with its weight
    wrapped: Vec<(&'a dyn InfoGrid, LayoutWeight)>,
}

/// The weights of a list of elements.
pub open spec fn weights_of<'a>(wrapped: Seq<(&'a dyn InfoGrid, LayoutWeight)>) -> Seq<
    LayoutWeight,
> {
    Seq::new(wrapped.len(), |k: int| wrapped[k].1)
}

/// What is left of `whole` after `taken`.
pub open spec fn less(whole: nat, taken: nat) -> nat {
    if taken > whole {
        0
    } else {
        (whole - taken) as nat
    }
}

/// The line at position `i` of a block of lines, empty where the block has
/// no such line.
pub open spec fn cell(block: Seq<Seq<char>>, i: int) -> Seq<char> {
    if 0 <= i < block.len() {
        block[i]
    } else {
        Seq::empty()
    }
}

/// The border above or below elements that stand side by side, up to and
/// with the first `k` of them: a corner, and for every element a stroke as
/// wide as the element and two more, with a joint behind it or, behind the
/// last element, the other corner.
pub open spec fn side_border(
    frame: FrameType,
    widths: Seq<usize>,
    top: bool,
    k: nat,
) -> Seq<char>
    decreases k,
{
    if k == 0 || k > widths.len() {
        if top {
            seq![frame.corner(true, true)]
        } else {
            seq![frame.corner(false, true)]
        }
    } else {
        side_border(frame, widths, top, (k - 1) as nat) + repeated(
            frame.hor_char(),
            widths[k - 1] as nat + 2,
        ) + seq![
            if k != widths.len() {
                frame.joint_char(
                    if top {
                        JointType::TDown
                    } else {
                        JointType::TUp
                    },
                )
            } else {
                frame.corner(top, false)
            },
        ]
    }
}

/// Row `i` of elements that stand side by side, up to and with the first `k`
/// of them: every element's line with a space behind it, and with a frame a
/// stroke in front of the row and behind every element.
pub open spec fn side_row(
    frame: Option<FrameType>,
    contents: Seq<Seq<Seq<char>>>,
    i: int,
    k: nat,
) -> Seq<char>
    decreases k,
{
    if k == 0 || k > contents.len() {
        match frame {
            Some(f) => seq![f.ver_char(), ' '],
            None => Seq::empty(),
        }
    } else {
        side_row(frame, contents, i, (k - 1) as nat) + cell(contents[k - 1], i) + seq![' '] + (
        match frame {
            Some(f) => if k != contents.len() {
                seq![f.ver_char(), ' ']
            } else {
                seq![f.ver_char()]
            },
            None => Seq::empty(),
        })
    }
}

/// The rows of elements that stand side by side.
pub open spec fn side_rows(frame: Option<FrameType>, contents: Seq<Seq<Seq<char>>>, rows: nat) -> Seq<
    Seq<char>,
> {
    Seq::new(rows, |i: int| side_row(frame, contents, i, contents.len()))
}

/// Elements side by side: their rows, with a frame between a border above
/// and a border below.
pub open spec fn side_by_side(
    frame: Option<FrameType>,
    widths: Seq<usize>,
    contents: Seq<Seq<Seq<char>>>,
    rows: nat,
) -> Seq<Seq<char>> {
    match frame {
        Some(f) => seq![side_border(f, widths, true, widths.len())] + side_rows(
            frame,
            contents,
            rows,
        ) + seq![side_border(f, widths, false, widths.len())],
        None => side_rows(frame, contents, rows),
    }
}

/// A stroke across a layout of `w` characters, between two end pieces.
pub open spec fn across(frame: FrameType, w: nat, left: char, right: char) -> Seq<char> {
    seq![left] + repeated(frame.hor_char(), less(w, 2)) + seq![right]
}

/// One line of an element in a layout of elements one above the other: with
/// a frame, between two strokes.
pub open spec fn stacked_line(frame: Option<FrameType>, line: Seq<char>) -> Seq<char> {
    match frame {
        Some(f) => seq![f.ver_char(), ' '] + line + seq![' ', f.ver_char()],
        None => line,
    }
}

/// The first `m` lines of one element in a layout of elements one above the
/// other. With a frame, a stroke across follows the last line of every
/// element but the last.
pub open spec fn stacked_block(
    frame: Option<FrameType>,
    lines: Seq<Seq<char>>,
    w: nat,
    last: bool,
    m: nat,
) -> Seq<Seq<char>>
    decreases m,
{
    if m == 0 || m > lines.len() {
        Seq::empty()
    } else {
        let earlier = stacked_block(frame, lines, w, last, (m - 1) as nat).push(
            stacked_line(frame, lines[m - 1]),
        );
        match frame {
            Some(f) => if m == lines.len() && !last {
                earlier.push(
                    across(f, w, f.joint_char(JointType::TRight), f.joint_char(JointType::TLeft)),
                )
            } else {
                earlier
            },
            None => earlier,
        }
    }
}

/// The lines of the first `k` elements of a layout of elements one above the
/// other.
pub open spec fn stacked_blocks(
    frame: Option<FrameType>,
    contents: Seq<Seq<Seq<char>>>,
    w: nat,
    k: nat,
) -> Seq<Seq<char>>
    decreases k,
{
    if k == 0 || k > contents.len() {
        Seq::empty()
    } else {
        stacked_blocks(frame, contents, w, (k - 1) as nat) + stacked_block(
            frame,
            contents[k - 1],
            w,
            k == contents.len(),
            contents[k - 1].len(),
        )
    }
}

/// Elements one above the other: their lines, with a frame between a stroke
/// above and a stroke below.
pub open spec fn stacked(frame: Option<FrameType>, contents: Seq<Seq<Seq<char>>>, w: nat) -> Seq<
    Seq<char>,
> {
    match frame {
        Some(f) => seq![across(f, w, f.corner(true, true), f.corner(true, false))]
            + stacked_blocks(frame, contents, w, contents.len()) + seq![
            across(f, w, f.corner(false, true), f.corner(false, false)),
        ],
        None => stacked_blocks(frame, contents, w, contents.len()),
    }
}

/// The lines for the rows of a layout of elements side by side: what the
/// frame leaves of `h`.
pub open spec fn side_lines(frame: Option<FrameType>, h: nat) -> nat {
    less(
        h,
        if frame is Some {
            2
        } else {
            0
        },
    )
}

/// The characters for the elements of a layout of `n` elements side by side:
/// what the spaces between them and the strokes of the frame leave of `w`.
pub open spec fn side_room(frame: Option<FrameType>, n: nat, w: nat) -> nat {
    less(
        less(w, less(n, 1)),
        if frame is Some {
            (n + 1) * 2
        } else {
            0
        },
    )
}

/// The lines for the elements of a layout of `n` elements one above the
/// other: what the strokes of the frame leave of `h`.
pub open spec fn stacked_lines(frame: Option<FrameType>, n: nat, h: nat) -> nat {
    less(
        h,
        if frame is Some {
            n + 1
        } else {
            0
        },
    )
}

/// The characters for the elements of a layout of elements one above the
/// other: what the strokes of the frame leave of `w`.
pub open spec fn stacked_room(frame: Option<FrameType>, w: nat) -> nat {
    less(
        w,
        if frame is Some {
            4
        } else {
            0
        },
    )
}

/// The displays of elements side by side: each in its width and in `rows`
/// lines.
pub open spec fn side_contents<'a>(
    wrapped: Seq<(&'a dyn InfoGrid, LayoutWeight)>,
    widths: Seq<usize>,
    rows: usize,
    formatting: TextFormatting,
) -> Seq<Seq<Seq<char>>> {
    Seq::new(wrapped.len(), |k: int| wrapped[k].0.grid(widths[k], rows, formatting))
}

/// The displays of elements one above the other: each in its height and in
/// `width` characters.
pub open spec fn stacked_contents<'a>(
    wrapped: Seq<(&'a dyn InfoGrid, LayoutWeight)>,
    heights: Seq<usize>,
    width: usize,
    formatting: TextFormatting,
) -> Seq<Seq<Seq<char>>> {
    Seq::new(wrapped.len(), |k: int| wrapped[k].0.grid(width, heights[k], formatting))
}

/// The views of a list of blocks of lines.
pub open spec fn blocks_view(blocks: Seq<Vec<String>>) -> Seq<Seq<Seq<char>>> {
    Seq::new(blocks.len(), |k: int| lines_view(blocks[k]@))
}

/// What is left of `whole` after `taken`.
pub fn minus(whole: usize, taken: u128) -> (left: usize)
    ensures
        left == less(whole as nat, taken as nat),
{
    if taken > whole as u128 {
        0
    } else {
        (whole as u128 - taken) as usize
    }
}

/// Appends a stroke across a layout: see [`across`].
pub fn push_across(line: &mut String, frame: &FrameType, w: usize, left: char, right: char)
    ensures
        final(line)@ == old(line)@ + across(*frame, w as nat, left, right),
{
    line.push(left);
    push_repeated(line, frame.hor(), minus(w, 2));
    line.push(right);
}

/// The border above or below elements that stand side by side: see
/// [`side_border`].
pub fn build_side_border(frame: &FrameType, widths: &Vec<usize>, top: bool) -> (row: String)
    ensures
        row@ == side_border(*frame, widths@, top, widths@.len()),
{
    let mut row = String::new();
    row.push(
        if top {
            frame.top_left()
        } else {
            frame.bottom_left()
        },
    );
    let mut n: usize = 0;
    while n < widths.len()
        invariant
            n <= widths.len(),
            row@ == side_border(*frame, widths@, top, n as nat),
        decreases widths.len() - n,
    {
        // The stroke covers the element and the two spaces beside it.
        push_repeated(&mut row, frame.hor(), widths[n]);
        push_repeated(&mut row, frame.hor(), 2);
        // A joint, or a corner behind the last element
        if n != widths.len() - 1 {
            row.push(
                frame.joint(
                    if top {
                        JointType::TDown
                    } else {
                        JointType::TUp
                    },
                ),
            );
        } else {
            row.push(
                if top {
                    frame.top_right()
                } else {
                    frame.bottom_right()
                },
            );
        }
        assert(row@ =~= side_border(*frame, widths@, top, (n + 1) as nat)) by {
        }
        n += 1;
    }
    row
}

/// Row `i` of elements that stand side by side: see [`side_row`].
pub fn build_side_row(frame: &Option<FrameType>, contents: &Vec<Vec<String>>, i: usize) -> (line:
    String)
    ensures
        line@ == side_row(*frame, blocks_view(contents@), i as int, contents@.len()),
{
    let mut line = String::new();
    let ghost blocks = blocks_view(contents@);
    // With a frame, the row opens with a stroke.
    if let Some(f) = frame {
        line.push(f.ver());
        line.push(' ');
    }
    let mut x: usize = 0;
    while x < contents.len()
        invariant
            x <= contents.len(),
            blocks == blocks_view(contents@),
            line@ == side_row(*frame, blocks, i as int, x as nat),
        decreases contents.len() - x,
    {
        if i < contents[x].len() {
            line.append(contents[x][i].as_str());
        }
        line.push(' ');
        // With a frame, a stroke follows every element.
        if let Some(f) = frame {
            line.push(f.ver());
            if x != contents.len() - 1 {
                line.push(' ');
            }
        }
        x += 1;
    }
    line
}

/// Appends the lines of one element of a layout of elements one above the
/// other: see [`stacked_block`].
pub fn push_stacked_block(
    output: &mut Vec<String>,
    frame: &Option<FrameType>,
    lines: &Vec<String>,
    w: usize,
    last: bool,
)
    ensures
        lines_view(final(output)@) == lines_view(old(output)@) + stacked_block(
            *frame,
            lines_view(lines@),
            w as nat,
            last,
            lines@.len(),
        ),
{
    let ghost shown = lines_view(lines@);
    let ghost above = lines_view(output@);
    let mut n: usize = 0;
    while n < lines.len()
        invariant
            n <= lines.len(),
            shown == lines_view(lines@),
            lines_view(output@) == above + stacked_block(*frame, shown, w as nat, last, n as nat),
        decreases lines.len() - n,
    {
        let ghost so_far = lines_view(output@);
        match frame {
            None => {
                output.push(lines[n].clone());
                assert(lines_view(output@) =~= so_far.push(stacked_line(*frame, shown[n as int])));
            },
            Some(f) => {
                let mut line = String::new();
                line.push(f.ver());
                line.push(' ');
                line.append(lines[n].as_str());
                line.push(' ');
                line.push(f.ver());
                assert(line@ =~= stacked_line(*frame, shown[n as int]));
                output.push(line);
                assert(lines_view(output@) =~= so_far.push(stacked_line(*frame, shown[n as int])));
                if n == lines.len() - 1 && !last {
                    let ghost with_line = lines_view(output@);
                    let mut stroke = String::new();
                    push_across(
                        &mut stroke,
                        f,
                        w,
                        f.joint(JointType::TRight),
                        f.joint(JointType::TLeft),
                    );
                    output.push(stroke);
                    assert(lines_view(output@) =~= with_line.push(
                        across(
                            *f,
                            w as nat,
                            f.joint_char(JointType::TRight),
                            f.joint_char(JointType::TLeft),
                        ),
                    ));
                }
            },
        }
        n += 1;
    }
}

/// Puts blocks of lines side by side: see [`side_by_side`].
pub fn put_side_by_side(
    frame: &Option<FrameType>,
    widths: &Vec<usize>,
    contents: &Vec<Vec<String>>,
    rows: usize,
) -> (output: Vec<String>)
    ensures
        lines_view(output@) == side_by_side(
            *frame,
            widths@,
            blocks_view(contents@),
            rows as nat,
        ),
{
    let ghost goal = blocks_view(contents@);
    let mut output: Vec<String> = Vec::new();
    // With a frame, the first row is the border.
    if let Some(frametype) = frame {
        output.push(build_side_border(frametype, widths, true));
    }
    let ghost head = lines_view(output@);
    // The lines of the elements, one row after the other
    let mut i: usize = 0;
    while i < rows
        invariant
            i <= rows,
            goal == blocks_view(contents@),
            lines_view(output@) == head + side_rows(*frame, goal, i as nat),
        decreases rows - i,
    {
        let ghost before = lines_view(output@);
        let line = build_side_row(frame, contents, i);
        output.push(line);
        assert(before.push(side_row(*frame, goal, i as int, goal.len())) =~= head + side_rows(
            *frame,
            goal,
            (i + 1) as nat,
        ));
        i += 1;
    }
    // With a frame, the last row is the border.
    if let Some(frametype) = frame {
        let ghost before = lines_view(output@);
        output.push(build_side_border(frametype, widths, false));
        assert(lines_view(output@) =~= before.push(
            side_border(*frametype, widths@, false, widths@.len()),
        ));
    }
    output
}

/// As many weights as there are elements that share the room in equal parts.
pub open spec fn equal_weights(n: nat) -> Seq<LayoutWeight> {
    Seq::new(n, |k: int| LayoutWeight::Distribute(1))
}

/// The displays of elements of one kind side by side: each in its width and
/// in `rows` lines.
pub open spec fn row_contents<T: InfoGrid>(
    elements: Seq<T>,
    widths: Seq<usize>,
    rows: usize,
    formatting: TextFormatting,
) -> Seq<Seq<Seq<char>>> {
    Seq::new(elements.len(), |k: int| elements[k].grid(widths[k], rows, formatting))
}

/// Elements of one kind side by side in `w` characters and `h` lines, with
/// equal shares of the width.
pub open spec fn row_text<T: InfoGrid>(
    elements: Seq<T>,
    frame: Option<FrameType>,
    w: usize,
    h: usize,
    formatting: TextFormatting,
) -> Seq<Seq<char>> {
    let rows = side_lines(frame, h as nat);
    let widths = distributed(
        equal_weights(elements.len()),
        side_room(frame, elements.len(), w as nat),
    );
    side_by_side(frame, widths, row_contents(elements, widths, rows as usize, formatting), rows)
}

/// Shows elements of one kind side by side: see [`row_text`].
pub fn display_row<T: InfoGrid>(
    elements: &Vec<T>,
    frame: &Option<FrameType>,
    w: usize,
    h: usize,
    formatting: TextFormatting,
) -> (output: Vec<String>)
    ensures
        lines_view(output@) == row_text(elements@, *frame, w, h, formatting),
{
    let n = elements.len();
    let rows = minus(
        h,
        if frame.is_some() {
            2
        } else {
            0
        },
    );
    let room = minus(
        minus(
            w,
            if n > 0 {
                (n - 1) as u128
            } else {
                0
            },
        ),
        if frame.is_some() {
            (n as u128 + 1) * 2
        } else {
            0
        },
    );
    let mut weights: Vec<LayoutWeight> = Vec::new();
    let mut k: usize = 0;
    while k < n
        invariant
            k <= n,
            weights@ == equal_weights(k as nat),
        decreases n - k,
    {
        weights.push(LayoutWeight::Distribute(1));
        k += 1;
    }
    let widths = distribute_sizes(&weights, room);
    proof {
        lemma_distributed_len(weights@, room as nat);
    }
    let ghost goal = row_contents(elements@, widths@, rows, formatting);
    let mut contents: Vec<Vec<String>> = Vec::new();
    let mut k: usize = 0;
    while k < n
        invariant
            k <= n,
            n == elements@.len(),
            widths@.len() == n,
            goal == row_contents(elements@, widths@, rows, formatting),
            contents@.len() == k,
            forall|j: int| 0 <= j < k ==> lines_view((#[trigger] contents@[j])@) == goal[j],
        decreases n - k,
    {
        contents.push(elements[k].display(widths[k], rows, formatting));
        k += 1;
    }
    assert(blocks_view(contents@) =~= goal);
    put_side_by_side(frame, &widths, &contents, rows)
}

impl<'a> LinearLayout<'a> {
    /// The direction of the layout.
    pub closed spec fn spec_direction(&self) -> LayoutDirection {
        self.direction
    }

    /// The frame of the layout.
    pub closed spec fn spec_frame(&self) -> Option<FrameType> {
        self.frame
    }

    /// The elements of the layout, each with its weight.
    pub closed spec fn elements(&self) -> Seq<(&'a dyn InfoGrid, LayoutWeight)> {
        self.wrapped@
    }

    /// A layout with no elements, side by side in a single frame.
    pub fn empty() -> (layout: Self)
        ensures
            layout.spec_direction() == LayoutDirection::Horizontal,
            layout.spec_frame() == Some(FrameType::Single),
            layout.elements() == Seq::<(&'a dyn InfoGrid, LayoutWeight)>::empty(),
    {
        LinearLayout {
            direction: LayoutDirection::Horizontal,
            frame: Some(FrameType::Single),
            wrapped: Vec::new(),
        }
    }

    /// A layout with no elements, in `direction` and with `frame`.
    pub fn configure(direction: LayoutDirection, frame: Option<FrameType>) -> (layout: Self)
        ensures
            layout.spec_direction() == direction,
            layout.spec_frame() == frame,
            layout.elements() == Seq::<(&'a dyn InfoGrid, LayoutWeight)>::empty(),
    {
        LinearLayout { direction, frame, wrapped: Vec::new() }
    }

    /// A layout like [`LinearLayout::empty`] around the elements of
    /// `wrapped`, which share the room in equal parts.
    pub fn from(wrapped: Vec<&'a dyn InfoGrid>) -> (layout: Self)
        ensures
            layout.spec_direction() == LayoutDirection::Horizontal,
            layout.spec_frame() == Some(FrameType::Single),
            layout.elements() == Seq::new(
                wrapped@.len(),
                |k: int| (wrapped@[k], LayoutWeight::Distribute(1)),
            ),
    {
        let mut elements: Vec<(&'a dyn InfoGrid, LayoutWeight)> = Vec::new();
        let mut i: usize = 0;
        while i < wrapped.len()
            invariant
                i <= wrapped.len(),
                elements@.len() == i,
                forall|k: int|
                    0 <= k < i ==> (#[trigger] elements@[k]) == (
                        wrapped@[k],
                        LayoutWeight::Distribute(1),
                    ),
            decreases wrapped.len() - i,
        {
            let element = (wrapped[i], LayoutWeight::Distribute(1));
            elements.push(element);
            i += 1;
        }
        LinearLayout {
            direction: LayoutDirection::Horizontal,
            frame: Some(FrameType::Single),
            wrapped: elements,
        }
    }

    /// Adds an element behind those that are there.
    pub fn add(&mut self, g: &'a dyn InfoGrid, weight: LayoutWeight)
        ensures
            final(self).elements() == old(self).elements().push((g, weight)),
            final(self).spec_direction() == old(self).spec_direction(),
            final(self).spec_frame() == old(self).spec_frame(),
    {
        self.wrapped.push((g, weight));
    }

    /// Changes the direction.
    pub fn set_direction(&mut self, d: LayoutDirection)
        ensures
            final(self).spec_direction() == d,
            final(self).elements() == old(self).elements(),
            final(self).spec_frame() == old(self).spec_frame(),
    {
        self.direction = d;
    }

    /// Changes the frame.
    pub fn set_frame(&mut self, f: Option<FrameType>)
        ensures
            final(self).spec_frame() == f,
            final(self).elements() == old(self).elements(),
            final(self).spec_direction() == old(self).spec_direction(),
    {
        self.frame = f;
    }

    /// Divides `size` among the elements by their weights: every element
    /// with the length it gets. See [`distributed`].
    pub fn distribute(&self, size: usize) -> (shares: Vec<(&'a dyn InfoGrid, usize)>)
        ensures
            shares@.len() == self.elements().len(),
            forall|k: int|
                0 <= k < shares@.len() ==> (#[trigger] shares@[k]).0 == self.elements()[k].0
                    && shares@[k].1 == distributed(weights_of(self.elements()), size as nat)[k],
    {
        let lengths = self.distribute_lengths(size);
        let mut shares: Vec<(&'a dyn InfoGrid, usize)> = Vec::new();
        let mut k: usize = 0;
        let n = self.wrapped.len();
        assert(lengths@.len() == self.wrapped@.len()) by {
            lemma_distributed_len(weights_of(self.wrapped@), size as nat);
        }
        while k < self.wrapped.len()
            invariant
                k <= self.wrapped.len(),
                lengths@.len() == self.wrapped@.len(),
                lengths@ == distributed(weights_of(self.elements()), size as nat),
                shares@.len() == k,
                forall|j: int|
                    0 <= j < k ==> (#[trigger] shares@[j]).0 == self.elements()[j].0
                        && shares@[j].1 == lengths@[j],
            decreases self.wrapped.len() - k,
        {
            let element = self.wrapped[k].0;
            let share = (element, lengths[k]);
            shares.push(share);
            k += 1;
        }
        shares
    }

    /// The lengths that the elements get of `size`.
    pub fn distribute_lengths(&self, size: usize) -> (lengths: Vec<usize>)
        ensures
            lengths@ == distributed(weights_of(self.elements()), size as nat),
    {
        let mut weights: Vec<LayoutWeight> = Vec::new();
        let mut k: usize = 0;
        while k < self.wrapped.len()
            invariant
                k <= self.wrapped.len(),
                weights@ == weights_of(self.wrapped@).take(k as int),
            decreases self.wrapped.len() - k,
        {
            weights.push(self.wrapped[k].1);
            k += 1;
        }
        assert(weights@ =~= weights_of(self.wrapped@));
        distribute_sizes(&weights, size)
    }
}

/// Every element gets a length.
pub proof fn lemma_distributed_len(weights: Seq<LayoutWeight>, size: nat)
    requires
        weights.len() <= usize::MAX,
    ensures
        distributed(weights, size).len() == weights.len(),
{
    let lengths = first_lengths(weights, size);
    let order = stable_order(leftover_keys(weights, size));
    crate::order::lemma_stable_order(leftover_keys(weights, size));
    let used = lengths_total(lengths);
    let left: nat = if used > size {
        0
    } else {
        (size - used) as nat
    };
    let k: nat = if left < order.len() {
        left
    } else {
        order.len()
    };
    lemma_raised_len(lengths, order, k);
}

/// Raising lengths leaves their number as it is.
pub proof fn lemma_raised_len(lengths: Seq<usize>, order: Seq<usize>, k: nat)
    ensures
        raised_upto(lengths, order, k).len() == lengths.len(),
    decreases k,
{
    if k == 0 || k > order.len() {
    } else {
        lemma_raised_len(lengths, order, (k - 1) as nat);
    }
}

/// A layout shows its elements in the room that it gets, as its direction
/// and its frame say.
impl<'a> InfoGrid for LinearLayout<'a> {
    open spec fn grid(&self, w: usize, h: usize, formatting: TextFormatting) -> Seq<Seq<char>> {
        let n = self.elements().len();
        match self.spec_direction() {
            // Side by side: every element gets all lines and its share of
            // the width.
            LayoutDirection::Horizontal => {
                let rows = side_lines(self.spec_frame(), h as nat);
                let widths = distributed(
                    weights_of(self.elements()),
                    side_room(self.spec_frame(), n, w as nat),
                );
                side_by_side(
                    self.spec_frame(),
                    widths,
                    side_contents(self.elements(), widths, rows as usize, formatting),
                    rows,
                )
            },
            // One above the other: every element gets the full width and its
            // share of the lines.
            LayoutDirection::Vertical => {
                let heights = distributed(
                    weights_of(self.elements()),
                    stacked_lines(self.spec_frame(), n, h as nat),
                );
                stacked(
                    self.spec_frame(),
                    stacked_contents(
                        self.elements(),
                        heights,
                        stacked_room(self.spec_frame(), w as nat) as usize,
                        formatting,
                    ),
                    w as nat,
                )
            },
        }
    }

    fn display(&self, w: usize, h: usize, formatting: TextFormatting) -> (lines: Vec<String>) {
        match &self.direction {
            LayoutDirection::Horizontal => self.display_side_by_side(w, h, formatting),
            LayoutDirection::Vertical => self.display_stacked(w, h, formatting),
        }
    }
}

impl<'a> LinearLayout<'a> {
    /// The display of the elements side by side.
    pub fn display_side_by_side(&self, w: usize, h: usize, formatting: TextFormatting) -> (output:
        Vec<String>)
        requires
            self.spec_direction() == LayoutDirection::Horizontal,
        ensures
            lines_view(output@) == self.grid(w, h, formatting),
    {
        let n = self.wrapped.len();
        // The frame takes a line above and a line below.
        let available_line_num = minus(
            h,
            if self.frame.is_some() {
                2
            } else {
                0
            },
        );
        // The spaces between the elements and the strokes of the frame take
        // their share of the width.
        let available_line_len = minus(
            minus(
                w,
                if n > 0 {
                    (n - 1) as u128
                } else {
                    0
                },
            ),
            if self.frame.is_some() {
                (n as u128 + 1) * 2
            } else {
                0
            },
        );
        // The width is divided among the elements by their weights.
        let h_lengths = self.distribute_lengths(available_line_len);
        proof {
            lemma_distributed_len(weights_of(self.wrapped@), available_line_len as nat);
        }
        let ghost goal = side_contents(
            self.wrapped@,
            h_lengths@,
            available_line_num,
            formatting,
        );
        let mut built_content_lines: Vec<Vec<String>> = Vec::new();
        let mut k: usize = 0;
        while k < n
            invariant
                k <= n,
                n == self.wrapped@.len(),
                h_lengths@.len() == n,
                goal == side_contents(self.wrapped@, h_lengths@, available_line_num, formatting),
                built_content_lines@.len() == k,
                forall|j: int|
                    0 <= j < k ==> lines_view((#[trigger] built_content_lines@[j])@) == goal[j],
            decreases n - k,
        {
            built_content_lines.push(
                self.wrapped[k].0.display(h_lengths[k], available_line_num, formatting),
            );
            k += 1;
        }
        assert(blocks_view(built_content_lines@) =~= goal);
        put_side_by_side(&self.frame, &h_lengths, &built_content_lines, available_line_num)
    }

    /// The display of the elements one above the other.
    pub fn display_stacked(&self, w: usize, h: usize, formatting: TextFormatting) -> (output: Vec<
        String,
    >)
        requires
            self.spec_direction() == LayoutDirection::Vertical,
        ensures
            lines_view(output@) == self.grid(w, h, formatting),
    {
        let n = self.wrapped.len();
        // With a frame, a line goes to every stroke between and around the
        // elements.
        let available_line_num = minus(
            h,
            if self.frame.is_some() {
                n as u128 + 1
            } else {
                0
            },
        );
        // With a frame, a stroke and a space go off the width on each side.
        let available_line_width = minus(
            w,
            if self.frame.is_some() {
                4
            } else {
                0
            },
        );
        // The lines are divided among the elements by their weights.
        let heights = self.distribute_lengths(available_line_num);
        proof {
            lemma_distributed_len(weights_of(self.wrapped@), available_line_num as nat);
        }
        let ghost goal = stacked_contents(
            self.wrapped@,
            heights@,
            available_line_width,
            formatting,
        );
        let mut output: Vec<String> = Vec::new();
        // With a frame, the first row is a stroke.
        if let Some(frametype) = &self.frame {
            let mut top = String::new();
            push_across(&mut top, frametype, w, frametype.top_left(), frametype.top_right());
            output.push(top);
        }
        let ghost head = lines_view(output@);
        let mut k: usize = 0;
        while k < n
            invariant
                k <= n,
                n == self.wrapped@.len(),
                heights@.len() == n,
                goal == stacked_contents(self.wrapped@, heights@, available_line_width, formatting),
                lines_view(output@) == head + stacked_blocks(self.frame, goal, w as nat, k as nat),
            decreases n - k,
        {
            let ghost before = lines_view(output@);
            let lines = self.wrapped[k].0.display(available_line_width, heights[k], formatting);
            push_stacked_block(&mut output, &self.frame, &lines, w, k == n - 1);
            k += 1;
        }
        // With a frame, the last row is a stroke.
        if let Some(frametype) = &self.frame {
            let ghost before = lines_view(output@);
            let mut bottom = String::new();
            push_across(
                &mut bottom,
                frametype,
                w,
                frametype.bottom_left(),
                frametype.bottom_right(),
            );
            output.push(bottom);
            assert(lines_view(output@) =~= before.push(
                across(
                    *frametype,
                    w as nat,
                    frametype.corner(false, true),
                    frametype.corner(false, false),
                ),
            ));
        }
        output
    }
}

} // verus!
