//! Reading the configured pools: a list of subnets in CIDR notation,
//! separated by commas.

use vstd::prelude::*;
use vstd::string::StrSliceExecFns;
use crate::subnet::Subnet;

verus! {

/// The pieces into which commas cut a text. A text without a comma is one
/// piece; a comma at either end leaves an empty piece there.
pub open spec fn split_commas(text: Seq<char>) -> Seq<Seq<char>>
    decreases text.len(),
{
    if text.len() == 0 {
        seq![Seq::<char>::empty()]
    } else {
        let before = split_commas(text.drop_last());
        if text.last() == ',' {
            before.push(Seq::<char>::empty())
        } else {
            before.drop_last().push(before.last().push(text.last()))
        }
    }
}

/// The subnets that the pieces denote, in their order; a piece that denotes
/// none is passed over.
pub open spec fn denoted_subnets<C: Subnet>(pieces: Seq<Seq<char>>) -> Seq<C>
    decreases pieces.len(),
{
    if pieces.len() == 0 {
        Seq::<C>::empty()
    } else {
        let before = denoted_subnets::<C>(pieces.drop_last());
        match C::denoted(pieces.last()) {
            Some(subnet) => before.push(subnet),
            None => before,
        }
    }
}

/// Commas cut a text into at least one piece.
pub proof fn lemma_split_commas_nonempty(text: Seq<char>)
    ensures
        split_commas(text).len() >= 1,
    decreases text.len(),
{
    if text.len() > 0 {
        lemma_split_commas_nonempty(text.drop_last());
    }
}

/// The text that pieces make when a comma is put between each two.
pub open spec fn join_commas(pieces: Seq<Seq<char>>) -> Seq<char>
    decreases pieces.len(),
{
    if pieces.len() == 0 {
        Seq::<char>::empty()
    } else if pieces.len() == 1 {
        pieces[0]
    } else {
        join_commas(pieces.drop_last()) + seq![','] + pieces.last()
    }
}

/// Cutting loses nothing: no piece holds a comma, and the pieces joined by
/// commas are the text again.
pub proof fn lemma_split_commas_exact(text: Seq<char>)
    ensures
        forall|i: int|
            0 <= i < split_commas(text).len() ==> !(#[trigger] split_commas(text)[i]).contains(','),
        join_commas(split_commas(text)) == text,
    decreases text.len(),
{
    let pieces = split_commas(text);
    if text.len() == 0 {
        assert(pieces[0] =~= Seq::<char>::empty());
        assert(join_commas(pieces) =~= text);
    } else {
        let shorter = text.drop_last();
        let before = split_commas(shorter);
        lemma_split_commas_exact(shorter);
        lemma_split_commas_nonempty(shorter);
        if text.last() == ',' {
            assert(pieces.drop_last() =~= before);
            assert(join_commas(pieces) =~= join_commas(before) + seq![','] + Seq::<char>::empty());
            assert(join_commas(pieces) =~= shorter.push(','));
            assert(shorter.push(',') =~= text);
            assert forall|i: int| 0 <= i < pieces.len() implies !(#[trigger] pieces[i]).contains(
                ',',
            ) by {
                if i < before.len() {
                    assert(pieces[i] == before[i]);
                }
            }
        } else {
            let grown = before.last().push(text.last());
            assert(pieces.drop_last() =~= before.drop_last());
            assert(pieces.last() == grown);
            if before.len() == 1 {
                assert(join_commas(before) == before[0]);
                assert(join_commas(pieces) =~= shorter.push(text.last()));
            } else {
                assert(join_commas(before) == join_commas(before.drop_last()) + seq![',']
                    + before.last());
                assert(join_commas(pieces) == join_commas(before.drop_last()) + seq![',']
                    + grown);
                assert(join_commas(pieces) =~= shorter.push(text.last()));
            }
            assert(shorter.push(text.last()) =~= text);
            assert forall|i: int| 0 <= i < pieces.len() implies !(#[trigger] pieces[i]).contains(
                ',',
            ) by {
                if i < before.len() - 1 {
                    assert(pieces[i] == before[i]);
                } else {
                    assert(!before[before.len() - 1].contains(','));
                    if grown.contains(',') {
                        let j = choose|j: int| 0 <= j < grown.len() && grown[j] == ',';
                        if j < before.last().len() {
                            assert(before.last()[j] == ',');
                            assert(before.last().contains(','));
                        }
                    }
                }
            }
        }
    }
}

/// Reads a pool from a list of subnets in CIDR notation, separated by
/// commas. Entries that are not valid are dropped.
pub fn parse_subnets<C: Subnet>(subnets: &str) -> (pool: Vec<C>)
    ensures
        pool@ == denoted_subnets::<C>(split_commas(subnets@)),
{
    let length = subnets.unicode_len();
    let mut pool: Vec<C> = Vec::new();
    let mut start: usize = 0;
    let mut i: usize = 0;
    let ghost mut done: Seq<Seq<char>> = Seq::empty();
    assert(subnets@.take(0) =~= Seq::<char>::empty());
    assert(subnets@.subrange(0, 0) =~= Seq::<char>::empty());
    assert(done.push(Seq::<char>::empty()) =~= seq![Seq::<char>::empty()]);
    while i < length
        invariant
            length == subnets@.len(),
            start <= i <= length,
            split_commas(subnets@.take(i as int)) == done.push(
                subnets@.subrange(start as int, i as int),
            ),
            pool@ == denoted_subnets::<C>(done),
        decreases length - i,
    {
        let ghost text = subnets@.take(i + 1);
        let ghost piece = subnets@.subrange(start as int, i as int);
        proof {
            assert(text.drop_last() =~= subnets@.take(i as int));
            assert(text.last() == subnets@[i as int]);
            assert(done.push(piece).drop_last() =~= done);
            assert(done.push(piece).last() == piece);
        }
        if subnets.get_char(i) == ',' {
            let entry = subnets.substring_char(start, i);
            match C::parse(entry) {
                Some(subnet) => {
                    pool.push(subnet);
                },
                None => {},
            }
            start = i + 1;
            proof {
                assert(subnets@.subrange(start as int, i + 1) =~= Seq::<char>::empty());
                done = done.push(piece);
            }
        } else {
            proof {
                assert(subnets@.subrange(start as int, i + 1) =~= piece.push(subnets@[i as int]));
            }
        }
        i += 1;
    }
    let entry = subnets.substring_char(start, length);
    match C::parse(entry) {
        Some(subnet) => {
            pool.push(subnet);
        },
        None => {},
    }
    proof {
        assert(subnets@.take(length as int) =~= subnets@);
        let pieces = done.push(subnets@.subrange(start as int, length as int));
        assert(pieces.drop_last() =~= done);
    }
    pool
}

} // verus!
