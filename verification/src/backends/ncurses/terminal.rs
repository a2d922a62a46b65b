use vstd::prelude::*;
use vstd::set_lib::{lemma_int_range, lemma_len_subset, lemma_map_size_bound, set_int_range};
use std::collections::HashMap;
use crate::backends::unix::color::{color_to_i16, curses_color_of, ColorPair};

verus! {

broadcast use vstd::std_specs::hash::group_hash_axioms;

/// The number that tells the pair of colors `pair` from every other pair:
/// sixteen times the number of its color, and the number of its ground.
pub open spec fn pair_code(pair: ColorPair) -> u64 {
    (16 * curses_color_of(pair.foreground) + curses_color_of(pair.background)) as u64
}

/// No two pairs of colors have the same code.
pub proof fn lemma_pair_code_tells_apart(first: ColorPair, second: ColorPair)
    requires
        pair_code(first) == pair_code(second),
    ensures
        first == second,
{
}

/// The pairs of colors that curses has been told of, each with its number.
/// Curses shows a cell in a pair of colors that it knows by number; a pair
/// gets the next free number when it is first asked for.
pub struct PairTable {
    pub numbers: HashMap<u64, i16>,
}

impl View for PairTable {
    type V = Map<u64, i16>;

    /// The number of each pair that the table knows, by the code of the
    /// pair.
    open spec fn view(&self) -> Map<u64, i16> {
        self.numbers@
    }
}

/// There are 256 pairs of colors: a set of codes of pairs has at most as
/// many members.
pub proof fn lemma_codes_are_few(codes: Set<u64>)
    requires
        forall|code: u64| codes.contains(code) ==> code < 256,
    ensures
        codes.finite(),
        codes.len() <= 256,
{
    let bytes = set_int_range(0, 256);
    let as_code = |i: int| i as u64;
    let all = bytes.map(as_code);
    lemma_int_range(0, 256);
    lemma_map_size_bound(bytes, all, as_code);
    assert forall|code: u64| codes.contains(code) implies all.contains(code) by {
        assert(bytes.contains(code as int));
        assert(as_code(code as int) == code);
    }
    lemma_len_subset(codes, all);
}

/// What `ncurses::COLOR_PAIR` gives for the number `number` of a pair of
/// colors: the attribute that shows a cell in that pair, which is the number
/// moved up past the eight bits of the character.
#[verifier::external_body]
fn color_pair_attribute(number: i16) -> (attribute: u64)
    requires
        0 <= number < 256,
    ensures
        attribute == number * 256,
{
    ::ncurses::COLOR_PAIR(number) as u64
}

impl PairTable {
    /// Every key of the table is the code of a pair, the numbers count up
    /// from zero without a gap, and no two pairs have the same number.
    pub open spec fn wf(&self) -> bool {
        &&& forall|code: u64| #[trigger]
            self@.contains_key(code) ==> code < 256 && 0 <= self@[code] < self@.len()
        &&& forall|first: u64, second: u64|
            self@.contains_key(first) && self@.contains_key(second) && first != second
                ==> #[trigger] self@[first] != #[trigger] self@[second]
    }

    /// A table that knows of no pair.
    pub fn new() -> (table: PairTable)
        ensures
            table.wf(),
            table@ == Map::<u64, i16>::empty(),
    {
        PairTable { numbers: HashMap::new() }
    }

    /// The number of `pair`, and whether the pair is new to the table and
    /// curses has yet to be told of it. A pair that the table knows keeps
    /// its number; a new pair gets the next free number.
    pub fn number_of(&mut self, pair: ColorPair) -> (answer: (i16, bool))
        requires
            old(self).wf(),
        ensures
            final(self).wf(),
            answer.1 == !old(self)@.contains_key(pair_code(pair)),
            !answer.1 ==> final(self)@ == old(self)@ && answer.0 == old(self)@[pair_code(pair)],
            answer.1 ==> final(self)@ == old(self)@.insert(pair_code(pair), answer.0) && answer.0
                == old(self)@.len(),
            0 <= answer.0 < final(self)@.len(),
    {
        let code = 16 * (color_to_i16(pair.foreground) as u64) + color_to_i16(
            pair.background,
        ) as u64;
        match self.numbers.get(&code) {
            Some(number) => (*number, false),
            None => {
                proof {
                    lemma_codes_are_few(self@.dom());
                }
                let number = self.numbers.len() as i16;
                self.numbers.insert(code, number);
                (number, true)
            },
        }
    }

    /// The attribute by which curses shows a cell in the pair of colors
    /// with the number `number`.
    pub fn attribute_of(&self, number: i16) -> (attribute: u64)
        requires
            self.wf(),
            0 <= number < self@.len(),
        ensures
            attribute == number * 256,
    {
        proof {
            lemma_codes_are_few(self@.dom());
        }
        color_pair_attribute(number)
    }
}

} // verus!
