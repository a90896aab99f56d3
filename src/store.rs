use vstd::prelude::*;

use crate::types::{Block, Cid, StorageError};

verus! {

/// The payload stored under `cid`: the most recently inserted block with that
/// identifier wins.
pub open spec fn find_block(blocks: Seq<(Seq<u8>, Seq<u8>)>, cid: Seq<u8>) -> Option<Seq<u8>>
    decreases blocks.len(),
{
    if blocks.len() == 0 {
        None
    } else if blocks.last().0 == cid {
        Some(blocks.last().1)
    } else {
        find_block(blocks.drop_last(), cid)
    }
}

/// An in-memory block store, used to replay scripted event sequences.
/// `public` is what an enumeration of the public blocks yields, entry by
/// entry; each entry may have failed on its own.
pub struct MemStore {
    pub blocks: Vec<Block>,
    pub public: Vec<Result<Cid, StorageError>>,
}

pub open spec fn public_view(public: Seq<Result<Cid, StorageError>>) -> Seq<Option<Seq<u8>>> {
    public.map_values(
        |e: Result<Cid, StorageError>|
            match e {
                Ok(c) => Some(c@),
                Err(_) => None,
            },
    )
}

impl MemStore {
    pub open spec fn blocks_view(&self) -> Seq<(Seq<u8>, Seq<u8>)> {
        self.blocks@.map_values(|b: Block| b@)
    }

    pub open spec fn public_view(&self) -> Seq<Option<Seq<u8>>> {
        public_view(self.public@)
    }

    pub fn new(public: Vec<Result<Cid, StorageError>>) -> (r: MemStore)
        ensures
            r.blocks_view() == Seq::<(Seq<u8>, Seq<u8>)>::empty(),
            r.public == public,
    {
        MemStore { blocks: Vec::new(), public }
    }

    /// Stores a block; a later lookup of its identifier yields its payload.
    pub fn insert(&mut self, block: Block)
        ensures
            final(self).blocks_view() == old(self).blocks_view().push(block@),
            final(self).public == old(self).public,
    {
        self.blocks.push(block);
        proof {
            assert(final(self).blocks_view() =~= old(self).blocks_view().push(block@));
        }
    }

    /// The payload stored under `cid`, if any.
    pub fn get_local(&self, cid: &Cid) -> (r: Option<Vec<u8>>)
        ensures
            r matches Some(d) ==> find_block(self.blocks_view(), cid@) == Some(d@),
            r is None ==> find_block(self.blocks_view(), cid@) is None,
    {
        let mut i: usize = self.blocks.len();
        proof {
            assert(self.blocks_view().subrange(0, i as int) =~= self.blocks_view());
        }
        while i > 0
            invariant
                i <= self.blocks@.len(),
                find_block(self.blocks_view(), cid@) == find_block(
                    self.blocks_view().subrange(0, i as int),
                    cid@,
                ),
            decreases i,
        {
            let ghost pre = self.blocks_view().subrange(0, i as int);
            proof {
                assert(pre.drop_last() =~= self.blocks_view().subrange(0, i - 1));
            }
            if self.blocks[i - 1].cid.same(cid) {
                return Some(self.blocks[i - 1].data.clone());
            }
            i = i - 1;
        }
        proof {
            assert(self.blocks_view().subrange(0, 0) =~= Seq::<(Seq<u8>, Seq<u8>)>::empty());
        }
        None
    }
}

} // verus!
