//! A pack of levels, as a game plays it.

use vstd::prelude::*;
use crate::format::decoded_level;
use crate::format::decoded_pack;
use crate::format::levels_in;
use crate::format::pack_accepted;
use crate::format::read_name;
use crate::format::read_tiles;
use crate::format::PackView;
use crate::format::HEADER_BYTES;
use crate::format::LEVEL_BYTES;
use crate::format::MAX_LEVELS;
use crate::level::Level;
use crate::level::LevelView;
use crate::level::LEVEL_NAME_LEN;

verus! {

/// The levels of a list, each as what it is.
pub open spec fn level_views(levels: Seq<Level>) -> Seq<LevelView> {
    Seq::new(levels.len(), |i: int| levels[i]@)
}

/// A pack: a name, an author and from one to `MAX_LEVELS` levels.
pub struct LevelPack {
    name: String,
    author: String,
    levels: Vec<Level>,
}

impl View for LevelPack {
    type V = PackView;

    closed spec fn view(&self) -> PackView {
        PackView { name: self.name@, author: self.author@, levels: level_views(self.levels@) }
    }
}

impl Clone for LevelPack {
    fn clone(&self) -> (r: LevelPack)
        ensures
            r@ == self@,
    {
        proof {
            use_type_invariant(self);
        }
        let mut levels: Vec<Level> = Vec::new();
        let mut i: usize = 0;
        while i < self.levels.len()
            invariant
                i <= self.levels@.len(),
                levels@.len() == i,
                forall|j: int| 0 <= j < i ==> (#[trigger] levels@[j])@ == self.levels@[j]@,
            decreases self.levels@.len() - i,
        {
            let level = self.levels[i].clone();
            levels.push(level);
            i += 1;
        }
        assert(level_views(levels@) =~= level_views(self.levels@));
        LevelPack { name: self.name.clone(), author: self.author.clone(), levels }
    }
}

impl LevelPack {
    #[verifier::type_invariant]
    spec fn counted(self) -> bool {
        1 <= self.levels@.len() <= MAX_LEVELS
    }


    /// The pack's name.
    pub fn name(&self) -> (r: &String)
        ensures
            r@ == self@.name,
    {
        &self.name
    }

    /// The pack's author.
    pub fn author(&self) -> (r: &String)
        ensures
            r@ == self@.author,
    {
        &self.author
    }

    /// The levels, in their order: from one to `MAX_LEVELS`.
    pub fn levels(&self) -> (r: &Vec<Level>)
        ensures
            level_views(r@) == self@.levels,
            1 <= r@.len() <= MAX_LEVELS,
    {
        proof {
            use_type_invariant(self);
        }
        &self.levels
    }

    /// Reads a pack from the bytes of a file. A file that is no longer than
    /// its two name fields, or holds no whole level, or more than
    /// `MAX_LEVELS`, is no pack; of any other file every whole level is
    /// read.
    pub fn load_from_file(data: Vec<u8>) -> (r: Option<LevelPack>)
        ensures
            r.is_some() == pack_accepted(data@),
            match r {
                Some(pack) => pack@ == decoded_pack(data@),
                None => true,
            },
    {
        if data.len() <= HEADER_BYTES {
            return None;
        }
        let count = (data.len() - HEADER_BYTES) / LEVEL_BYTES;
        assert(count == levels_in(data@.len()));
        if count == 0 || count > MAX_LEVELS {
            return None;
        }
        let name = read_name(&data, 0);
        let author = read_name(&data, LEVEL_NAME_LEN);
        let mut levels: Vec<Level> = Vec::new();
        let mut k: usize = 0;
        while k < count
            invariant
                k <= count <= MAX_LEVELS,
                HEADER_BYTES + count * LEVEL_BYTES <= data@.len(),
                levels@.len() == k,
                forall|j: int| 0 <= j < k ==> (#[trigger] levels@[j])@ == decoded_level(data@, j),
            decreases count - k,
        {
            let start = HEADER_BYTES + k * LEVEL_BYTES;
            let level = Level::from_parts(read_tiles(&data, start + LEVEL_NAME_LEN), read_name(&data, start));
            levels.push(level);
            k += 1;
        }
        let pack = LevelPack { name, author, levels };
        assert(pack@.levels =~= decoded_pack(data@).levels);
        Some(pack)
    }
}

} // verus!
