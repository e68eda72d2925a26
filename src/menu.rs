//! The minimal password plugin: the same numbered list of secrets, copied on activation,
//! with no context actions.
use vstd::prelude::*;
use crate::command::{Launch, launch_is, pass_launch, pass_command};
use crate::launcher::PluginSearchResult;
use crate::pass_lib::{Leaf, PassList, PassEntry, leaves, lemma_leaves_concat, str_contains};
use crate::pass_menu::{shows, matching_ids, leaf_result};

verus! {

pub struct MenuItem {
    plugin_entry: PluginSearchResult,
    full_name: String,
}

pub struct Menu {
    entries: Vec<MenuItem>,
}

impl MenuItem {
    pub closed spec fn view(&self) -> Leaf {
        Leaf { name: self.plugin_entry.name@, path: self.full_name@ }
    }
}

impl Menu {
    /// The entries, in id order.
    pub closed spec fn view(&self) -> Seq<Leaf> {
        self.entries@.map_values(|m: MenuItem| m.view())
    }

    /// Entry `i` carries id `i`, and its result shows its name and path.
    pub closed spec fn wf(&self) -> bool {
        &&& self.entries.len() <= u32::MAX
        &&& forall|i: int|
            0 <= i < self.entries.len() ==> shows(
                #[trigger] self.entries@[i].plugin_entry,
                i,
                self.entries@[i].view(),
            )
    }

    /// `r` runs `pass <op>` on entry `id` when there is one, and is the index error otherwise.
    pub open spec fn launch_outcome(&self, r: Result<Launch, String>, id: u32, op: Seq<char>) -> bool {
        &&& (r is Ok <==> id < self@.len())
        &&& (r matches Ok(l) ==> launch_is(l, "pass"@, pass_launch(op, self@[id as int].path)))
        &&& (r matches Err(e) ==> e@ == "Invalid index"@)
    }

    /// The number of entries.
    pub fn len(&self) -> (r: usize)
        ensures
            r == self@.len(),
    {
        self.entries.len()
    }

    fn add_all(&mut self, entries: &PassList, prefix: &str, id: &mut u32)
        requires
            old(self).wf(),
            *old(id) as int == old(self)@.len(),
            old(self)@.len() + leaves(entries@, prefix@).len() <= u32::MAX,
        ensures
            final(self).wf(),
            final(self)@ == old(self)@ + leaves(entries@, prefix@),
            *final(id) as int == final(self)@.len(),
        decreases entries@,
    {
        let ghost start = self@;
        let mut i: usize = 0;
        while i < entries.len()
            invariant
                0 <= i <= entries.len(),
                self.wf(),
                *id as int == self@.len(),
                self@ == start + leaves(entries@.take(i as int), prefix@),
                start.len() + leaves(entries@, prefix@).len() <= u32::MAX,
            decreases entries.len() - i,
        {
            let entry = &entries[i];
            let ghost before = self@;
            let ghost single = seq![entries@[i as int]];
            proof {
                let s = entries@;
                assert(s.take(i + 1) == s.take(i as int) + single);
                lemma_leaves_concat(s.take(i as int), single, prefix@);
                assert(s == s.take(i + 1) + s.skip(i + 1));
                lemma_leaves_concat(s.take(i + 1), s.skip(i + 1), prefix@);
                assert(single.drop_last() == Seq::<PassEntry>::empty());
                assert(single.last() == *entry);
                assert(leaves(Seq::<PassEntry>::empty(), prefix@) == Seq::<Leaf>::empty());
                assert(leaves(single, prefix@) == match entry.children {
                    None => seq![Leaf { name: entry.name@, path: prefix@ + entry.name@ }],
                    Some(c) => leaves(c@, prefix@ + entry.name@ + seq!['/']),
                });
            }
            let name = entry.name.clone();
            let mut full_name = prefix.to_owned();
            full_name.append(name.as_str());
            match &entry.children {
                None => {
                    let item = MenuItem {
                        plugin_entry: leaf_result(*id, &name, &full_name),
                        full_name,
                    };
                    let ghost leaf = item.view();
                    assert(leaves(single, prefix@) =~= seq![leaf]);
                    assert(self.entries.len() == *id as usize);
                    self.entries.push(item);
                    *id = *id + 1;
                    proof {
                        assert(self@ =~= before.push(leaf));
                        assert(self@ =~= start + leaves(entries@.take(i + 1), prefix@));
                    }
                },
                Some(children) => {
                    let mut child_prefix = full_name.clone();
                    child_prefix.append("/");
                    proof {
                        reveal_strlit("/");
                        assert(child_prefix@ == prefix@ + entry.name@ + seq!['/']);
                    }
                    self.add_all(children, child_prefix.as_str(), id);
                    proof {
                        assert(self@ =~= start + leaves(entries@.take(i + 1), prefix@));
                    }
                },
            }
            i = i + 1;
        }
        assert(entries@.take(i as int) == entries@);
    }

    /// Numbers the leaves of `entries` from zero, depth first, left to right.
    pub fn build(entries: PassList) -> (menu: Menu)
        requires
            leaves(entries@, Seq::empty()).len() <= u32::MAX,
        ensures
            menu.wf(),
            menu@ == leaves(entries@, Seq::empty()),
    {
        let mut menu = Menu { entries: Vec::new() };
        let mut id: u32 = 0;
        proof {
            reveal_strlit("");
            assert(""@ =~= Seq::<char>::empty());
        }
        assert(menu@ =~= Seq::<Leaf>::empty());
        menu.add_all(&entries, "", &mut id);
        assert(menu@ =~= leaves(entries@, Seq::empty()));
        menu
    }

    /// The results, in id order, of the entries whose path contains `term`.
    pub fn search(&self, term: &str) -> (r: Vec<PluginSearchResult>)
        requires
            self.wf(),
        ensures
            r@.len() == matching_ids(self@, term@).len(),
            forall|k: int|
                0 <= k < r@.len() ==> shows(
                    #[trigger] r@[k],
                    matching_ids(self@, term@)[k],
                    self@[matching_ids(self@, term@)[k]],
                ),
    {
        let mut ret: Vec<PluginSearchResult> = Vec::new();
        let mut i: usize = 0;
        while i < self.entries.len()
            invariant
                0 <= i <= self.entries.len(),
                self.wf(),
                ret@.len() == matching_ids(self@.take(i as int), term@).len(),
                forall|k: int|
                    0 <= k < ret@.len() ==> shows(
                        #[trigger] ret@[k],
                        matching_ids(self@.take(i as int), term@)[k],
                        self@[matching_ids(self@.take(i as int), term@)[k]],
                    ),
                forall|k: int|
                    0 <= k < matching_ids(self@.take(i as int), term@).len() ==> 0 <= #[trigger] matching_ids(self@.take(i as int), term@)[k] < i,
            decreases self.entries.len() - i,
        {
            let item = &self.entries[i];
            proof {
                assert(self@.take(i + 1).drop_last() == self@.take(i as int));
                assert(self@.take(i + 1).last() == self@[i as int]);
            }
            if str_contains(item.full_name.as_str(), term) {
                let r = leaf_result(item.plugin_entry.id, &item.plugin_entry.name, &item.full_name);
                ret.push(r);
            }
            i = i + 1;
        }
        assert(self@.take(i as int) == self@);
        ret
    }

    /// Copies the secret of entry `id` to the clipboard: the launch that does it.
    pub fn activate(&self, id: u32) -> (r: Result<Launch, String>)
        requires
            self.wf(),
        ensures
            self.launch_outcome(r, id, "-c"@),
    {
        if id as usize >= self.entries.len() {
            return Err("Invalid index".to_owned());
        }
        let entry = &self.entries[id as usize];
        Ok(pass_command("-c", &entry.full_name))
    }

}

} // verus!
