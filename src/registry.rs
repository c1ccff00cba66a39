use vstd::prelude::*;
use crate::json::{encode_string_array, json_string_array};
use crate::text::{lemma_push_to_set, push_unique, same_text, vec_contains};

verus! {

/// The channels that receive notifications, each once.
pub struct WatchRegistry {
    pub rooms: Vec<String>,
}

impl View for WatchRegistry {
    type V = Set<Seq<char>>;

    open spec fn view(&self) -> Set<Seq<char>> {
        self.rooms.deep_view().to_set()
    }
}

impl WatchRegistry {
    pub open spec fn wf(&self) -> bool {
        self.rooms.deep_view().no_duplicates()
    }

    pub fn new() -> (r: WatchRegistry)
        ensures
            r.wf(),
            r@ == Set::<Seq<char>>::empty(),
    {
        let r = WatchRegistry { rooms: Vec::new() };
        assert(r@ =~= Set::<Seq<char>>::empty());
        r
    }

    /// Whether `room` receives notifications.
    pub fn is_watched(&self, room: &str) -> (r: bool)
        ensures
            r == self@.contains(room@),
    {
        vec_contains(&self.rooms, room)
    }

    /// Subscribes `room`; returns whether it was not subscribed before.
    pub fn watch(&mut self, room: &str) -> (added: bool)
        requires
            old(self).wf(),
        ensures
            final(self).wf(),
            final(self)@ == old(self)@.insert(room@),
            added == !old(self)@.contains(room@),
    {
        let added = !vec_contains(&self.rooms, room);
        push_unique(&mut self.rooms, String::from_str(room));
        added
    }

    /// Unsubscribes `room`; returns whether it was subscribed.
    pub fn unwatch(&mut self, room: &str) -> (removed: bool)
        requires
            old(self).wf(),
        ensures
            final(self).wf(),
            final(self)@ == old(self)@.remove(room@),
            removed == old(self)@.contains(room@),
    {
        let ghost rs = self.rooms.deep_view();
        let mut kept: Vec<String> = Vec::new();
        let mut removed = false;
        let mut i: usize = 0;
        assert(kept.deep_view().to_set() =~= rs.subrange(0, 0).to_set().remove(room@));
        while i < self.rooms.len()
            invariant
                i <= self.rooms.len(),
                rs == self.rooms.deep_view(),
                kept.deep_view().to_set() == rs.subrange(0, i as int).to_set().remove(room@),
                kept.deep_view().no_duplicates(),
                removed == rs.subrange(0, i as int).contains(room@),
            decreases self.rooms.len() - i,
        {
            let ghost before = kept.deep_view().to_set();
            assert(rs.subrange(0, i + 1) =~= rs.subrange(0, i as int).push(rs[i as int]));
            proof {
                lemma_push_to_set(rs.subrange(0, i as int), rs[i as int]);
            }
            if same_text(self.rooms[i].as_str(), room) {
                removed = true;
                assert(rs.subrange(0, i + 1)[i as int] == room@);
            } else {
                push_unique(&mut kept, self.rooms[i].clone());
                assert(!rs.subrange(0, i as int).contains(room@) ==> !rs.subrange(0, i + 1).contains(room@));
            }
            assert(kept.deep_view().to_set() =~= rs.subrange(0, i + 1).to_set().remove(room@));
            i = i + 1;
        }
        assert(rs.subrange(0, i as int) =~= rs);
        self.rooms = kept;
        removed
    }

    /// The subscribed channels, each once.
    pub fn rooms(&self) -> (r: Vec<String>)
        requires
            self.wf(),
        ensures
            r.deep_view() == self.rooms.deep_view(),
            r.deep_view().to_set() == self@,
            r.deep_view().no_duplicates(),
    {
        let mut out: Vec<String> = Vec::new();
        let mut i: usize = 0;
        while i < self.rooms.len()
            invariant
                i <= self.rooms.len(),
                out.deep_view() == self.rooms.deep_view().subrange(0, i as int),
            decreases self.rooms.len() - i,
        {
            let ghost prev = out.deep_view();
            out.push(self.rooms[i].clone());
            assert(out.deep_view() =~= prev.push(self.rooms[i as int]@));
            assert(out.deep_view() =~= self.rooms.deep_view().subrange(0, i + 1));
            i = i + 1;
        }
        assert(self.rooms.deep_view().subrange(0, i as int) =~= self.rooms.deep_view());
        out
    }

    /// The subscribed channels as a JSON array, for the copy of the registry that outlives
    /// the process.
    pub fn to_json(&self) -> (r: String)
        ensures
            r@ == json_string_array(self.rooms.deep_view()),
    {
        match encode_string_array(&self.rooms) {
            Some(text) => text,
            None => String::new(),
        }
    }
}

} // verus!
