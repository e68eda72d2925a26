//! The password plugin's flat, numbered list of secrets, with copy and edit actions.
use vstd::prelude::*;
use crate::command::{Launch, launch_is, pass_launch, pass_command};
use crate::launcher::{ContextOption, IconSource, PluginSearchResult};
use crate::pass_lib::{Leaf, PassList, PassEntry, leaves, contains_seq, lemma_leaves_concat, str_contains};

verus! {

pub struct MenuItem {
    plugin_entry: PluginSearchResult,
    full_name: String,
}

pub struct Menu {
    entries: Vec<MenuItem>,
}

/// The actions offered on every entry, with their wire codes.
pub enum ContextAction {
    Copy,
    Edit,
}

impl ContextAction {
    pub open spec fn spec_code(self) -> u32 {
        match self {
            ContextAction::Copy => 1,
            ContextAction::Edit => 2,
        }
    }

    /// The wire code of the action.
    pub fn code(&self) -> (r: u32)
        ensures
            r == self.spec_code(),
    {
        match self {
            ContextAction::Copy => 1,
            ContextAction::Edit => 2,
        }
    }

    /// The action with wire code `code`, if there is one.
    pub fn from_code(code: u32) -> (r: Option<ContextAction>)
        ensures
            r matches Some(a) ==> a.spec_code() == code,
            r is None <==> (code != 1 && code != 2),
    {
        if code == 1 {
            Some(ContextAction::Copy)
        } else if code == 2 {
            Some(ContextAction::Edit)
        } else {
            None
        }
    }
}

/// `r` is the search result shown for leaf `leaf` under id `id`.
pub open spec fn shows(r: PluginSearchResult, id: int, leaf: Leaf) -> bool {
    &&& r.id as int == id
    &&& r.name@ == leaf.name
    &&& r.description@ == leaf.path
    &&& r.keywords is None
    &&& (r.icon matches Some(IconSource::Name(n)) && n@ == "security-high"@)
    &&& r.command is None
    &&& r.window is None
}

/// The ids, ascending, of the leaves whose path contains `term`.
pub open spec fn matching_ids(items: Seq<Leaf>, term: Seq<char>) -> Seq<int>
    decreases items.len(),
{
    if items.len() == 0 {
        Seq::empty()
    } else {
        let rest = matching_ids(items.drop_last(), term);
        if contains_seq(items.last().path, term) {
            rest.push(items.len() - 1)
        } else {
            rest
        }
    }
}

/// `opts` is copy with code 1, then edit with code 2.
pub open spec fn all_actions(opts: Seq<ContextOption>) -> bool {
    &&& opts.len() == 2
    &&& opts[0].id == ContextAction::Copy.spec_code() && opts[0].name@ == "Copy"@
    &&& opts[1].id == ContextAction::Edit.spec_code() && opts[1].name@ == "Edit"@
}

/// The result shown for one leaf.
pub(crate) fn leaf_result(id: u32, name: &String, path: &String) -> (r: PluginSearchResult)
    ensures
        shows(r, id as int, Leaf { name: name@, path: path@ }),
{
    PluginSearchResult {
        id,
        name: name.clone(),
        description: path.clone(),
        keywords: None,
        icon: Some(IconSource::Name("security-high".to_owned())),
        command: None,
        window: None,
    }
}

/// Search is exact: the matching ids ascend strictly, each names a leaf whose path
/// contains `term`, and every leaf whose path contains `term` is among them.
pub proof fn lemma_search_exact(items: Seq<Leaf>, term: Seq<char>)
    ensures
        forall|k: int|
            0 <= k < matching_ids(items, term).len() ==> 0 <= #[trigger] matching_ids(items, term)[k]
                < items.len() && contains_seq(items[matching_ids(items, term)[k]].path, term),
        forall|j: int, k: int|
            0 <= j < k < matching_ids(items, term).len() ==> #[trigger] matching_ids(items, term)[j]
                < #[trigger] matching_ids(items, term)[k],
        forall|i: int|
            0 <= i < items.len() && contains_seq(#[trigger] items[i].path, term) ==> exists|k: int|
                0 <= k < matching_ids(items, term).len() && matching_ids(items, term)[k] == i,
    decreases items.len(),
{
    if items.len() > 0 {
        let init = items.drop_last();
        lemma_search_exact(init, term);
        let ids = matching_ids(items, term);
        let rest = matching_ids(init, term);
        assert forall|i: int| 0 <= i < items.len() && contains_seq(#[trigger] items[i].path, term)
            implies exists|k: int| 0 <= k < ids.len() && ids[k] == i by {
            if i < items.len() - 1 {
                assert(init[i] == items[i]);
                let k = choose|k: int| 0 <= k < rest.len() && rest[k] == i;
                assert(ids[k] == i);
            } else {
                assert(ids[rest.len() as int] == i);
            }
        }
        assert forall|k: int| 0 <= k < ids.len() implies 0 <= #[trigger] ids[k] < items.len()
            && contains_seq(items[ids[k]].path, term) by {
            if k < rest.len() {
                assert(init[rest[k]] == items[rest[k]]);
            }
        }
    }
}

/// The empty term matches every entry: the ids are 0, 1, ... in order.
pub proof fn lemma_search_empty(items: Seq<Leaf>)
    ensures
        matching_ids(items, Seq::empty()).len() == items.len(),
        forall|k: int| 0 <= k < items.len() ==> #[trigger] matching_ids(items, Seq::empty())[k] == k,
    decreases items.len(),
{
    if items.len() > 0 {
        lemma_search_empty(items.drop_last());
        let e = Seq::<char>::empty();
        assert(items.last().path.subrange(0, 0 + e.len() as int) =~= e);
        assert(contains_seq(items.last().path, Seq::empty()));
    }
}

impl MenuItem {
    pub closed spec fn view(&self) -> Leaf {
        Leaf { name: self.plugin_entry.name@, path: self.full_name@ }
    }
}

impl Menu {
    /// The entries, in id order.
    pub closed spec fn view(&self) -> Seq<Leaf> {
        self.entries@.map_values(|m: MenuItem| m.view())
    }

    /// Entry `i` carries id `i`, and its result shows its name and path.
    pub closed spec fn wf(&self) -> bool {
        &&& self.entries.len() <= u32::MAX
        &&& forall|i: int|
            0 <= i < self.entries.len() ==> shows(
                #[trigger] self.entries@[i].plugin_entry,
                i,
                self.entries@[i].view(),
            )
    }

    /// `r` runs `pass <op>` on entry `id` when there is one, and is the index error otherwise.
    pub open spec fn launch_outcome(&self, r: Result<Launch, String>, id: u32, op: Seq<char>) -> bool {
        &&& (r is Ok <==> id < self@.len())
        &&& (r matches Ok(l) ==> launch_is(l, "pass"@, pass_launch(op, self@[id as int].path)))
        &&& (r matches Err(e) ==> e@ == "Invalid index"@)
    }

    /// The result stored for entry `i`.
    pub closed spec fn result_at(&self, i: int) -> PluginSearchResult {
        self.entries@[i].plugin_entry
    }

    /// Ids are positions: in a built list, entry `i` carries id `i` and shows the `i`-th leaf
    /// of the tree, so ids run 0 to N-1 over exactly the N leaves, in pre-order, without gaps
    /// or repeats.
    pub proof fn lemma_ids_are_positions(entries: Seq<PassEntry>, m: Menu)
        requires
            m.wf(),
            m@ == leaves(entries, Seq::empty()),
        ensures
            m@.len() == leaves(entries, Seq::empty()).len(),
            forall|i: int|
                0 <= i < m@.len() ==> shows(
                    #[trigger] m.result_at(i),
                    i,
                    leaves(entries, Seq::empty())[i],
                ),
            forall|i: int, j: int|
                0 <= i < j < m@.len() ==> #[trigger] m.result_at(i).id < #[trigger] m.result_at(j).id,
    {
        assert forall|i: int| 0 <= i < m@.len() implies shows(
            #[trigger] m.result_at(i),
            i,
            leaves(entries, Seq::empty())[i],
        ) by {
            assert(shows(m.entries@[i].plugin_entry, i, m.entries@[i].view()));
        }
        assert forall|i: int, j: int| 0 <= i < j < m@.len() implies #[trigger] m.result_at(i).id
            < #[trigger] m.result_at(j).id by {
            assert(shows(m.entries@[i].plugin_entry, i, m.entries@[i].view()));
            assert(shows(m.entries@[j].plugin_entry, j, m.entries@[j].view()));
        }
    }

    /// The number of entries.
    pub fn len(&self) -> (r: usize)
        ensures
            r == self@.len(),
    {
        self.entries.len()
    }

    fn add_all(&mut self, entries: &PassList, prefix: &str, id: &mut u32)
        requires
            old(self).wf(),
            *old(id) as int == old(self)@.len(),
            old(self)@.len() + leaves(entries@, prefix@).len() <= u32::MAX,
        ensures
            final(self).wf(),
            final(self)@ == old(self)@ + leaves(entries@, prefix@),
            *final(id) as int == final(self)@.len(),
        decreases entries@,
    {
        let ghost start = self@;
        let mut i: usize = 0;
        while i < entries.len()
            invariant
                0 <= i <= entries.len(),
                self.wf(),
                *id as int == self@.len(),
                self@ == start + leaves(entries@.take(i as int), prefix@),
                start.len() + leaves(entries@, prefix@).len() <= u32::MAX,
            decreases entries.len() - i,
        {
            let entry = &entries[i];
            let ghost before = self@;
            let ghost single = seq![entries@[i as int]];
            proof {
                let s = entries@;
                assert(s.take(i + 1) == s.take(i as int) + single);
                lemma_leaves_concat(s.take(i as int), single, prefix@);
                assert(s == s.take(i + 1) + s.skip(i + 1));
                lemma_leaves_concat(s.take(i + 1), s.skip(i + 1), prefix@);
                assert(single.drop_last() == Seq::<PassEntry>::empty());
                assert(single.last() == *entry);
                assert(leaves(Seq::<PassEntry>::empty(), prefix@) == Seq::<Leaf>::empty());
                assert(leaves(single, prefix@) == match entry.children {
                    None => seq![Leaf { name: entry.name@, path: prefix@ + entry.name@ }],
                    Some(c) => leaves(c@, prefix@ + entry.name@ + seq!['/']),
                });
            }
            let name = entry.name.clone();
            let mut full_name = prefix.to_owned();
            full_name.append(name.as_str());
            match &entry.children {
                None => {
                    let item = MenuItem {
                        plugin_entry: leaf_result(*id, &name, &full_name),
                        full_name,
                    };
                    let ghost leaf = item.view();
                    assert(leaves(single, prefix@) =~= seq![leaf]);
                    assert(self.entries.len() == *id as usize);
                    self.entries.push(item);
                    *id = *id + 1;
                    proof {
                        assert(self@ =~= before.push(leaf));
                        assert(self@ =~= start + leaves(entries@.take(i + 1), prefix@));
                    }
                },
                Some(children) => {
                    let mut child_prefix = full_name.clone();
                    child_prefix.append("/");
                    proof {
                        reveal_strlit("/");
                        assert(child_prefix@ == prefix@ + entry.name@ + seq!['/']);
                    }
                    self.add_all(children, child_prefix.as_str(), id);
                    proof {
                        assert(self@ =~= start + leaves(entries@.take(i + 1), prefix@));
                    }
                },
            }
            i = i + 1;
        }
        assert(entries@.take(i as int) == entries@);
    }

    /// Numbers the leaves of `entries` from zero, depth first, left to right.
    pub fn build(entries: PassList) -> (menu: Menu)
        requires
            leaves(entries@, Seq::empty()).len() <= u32::MAX,
        ensures
            menu.wf(),
            menu@ == leaves(entries@, Seq::empty()),
    {
        let mut menu = Menu { entries: Vec::new() };
        let mut id: u32 = 0;
        proof {
            reveal_strlit("");
            assert(""@ =~= Seq::<char>::empty());
        }
        assert(menu@ =~= Seq::<Leaf>::empty());
        menu.add_all(&entries, "", &mut id);
        assert(menu@ =~= leaves(entries@, Seq::empty()));
        menu
    }

    /// The results, in id order, of the entries whose path contains `term`.
    pub fn search(&self, term: &str) -> (r: Vec<PluginSearchResult>)
        requires
            self.wf(),
        ensures
            r@.len() == matching_ids(self@, term@).len(),
            forall|k: int|
                0 <= k < r@.len() ==> shows(
                    #[trigger] r@[k],
                    matching_ids(self@, term@)[k],
                    self@[matching_ids(self@, term@)[k]],
                ),
    {
        let mut ret: Vec<PluginSearchResult> = Vec::new();
        let mut i: usize = 0;
        while i < self.entries.len()
            invariant
                0 <= i <= self.entries.len(),
                self.wf(),
                ret@.len() == matching_ids(self@.take(i as int), term@).len(),
                forall|k: int|
                    0 <= k < ret@.len() ==> shows(
                        #[trigger] ret@[k],
                        matching_ids(self@.take(i as int), term@)[k],
                        self@[matching_ids(self@.take(i as int), term@)[k]],
                    ),
                forall|k: int|
                    0 <= k < matching_ids(self@.take(i as int), term@).len() ==> 0 <= #[trigger] matching_ids(self@.take(i as int), term@)[k] < i,
            decreases self.entries.len() - i,
        {
            let item = &self.entries[i];
            proof {
                assert(self@.take(i + 1).drop_last() == self@.take(i as int));
                assert(self@.take(i + 1).last() == self@[i as int]);
            }
            if str_contains(item.full_name.as_str(), term) {
                let r = leaf_result(item.plugin_entry.id, &item.plugin_entry.name, &item.full_name);
                ret.push(r);
            }
            i = i + 1;
        }
        assert(self@.take(i as int) == self@);
        ret
    }

    /// The result shown for entry `id`, if there is one.
    pub fn lookup(&self, id: u32) -> (r: Option<PluginSearchResult>)
        requires
            self.wf(),
        ensures
            r is Some <==> id < self@.len(),
            r matches Some(x) ==> shows(x, id as int, self@[id as int]),
    {
        if (id as usize) < self.entries.len() {
            let item = &self.entries[id as usize];
            Some(leaf_result(item.plugin_entry.id, &item.plugin_entry.name, &item.full_name))
        } else {
            None
        }
    }

    /// Copies the secret of entry `id` to the clipboard: the launch that does it.
    pub fn activate(&self, id: u32) -> (r: Result<Launch, String>)
        requires
            self.wf(),
        ensures
            self.launch_outcome(r, id, "-c"@),
    {
        if id as usize >= self.entries.len() {
            return Err("Invalid index".to_owned());
        }
        let entry = &self.entries[id as usize];
        Ok(pass_command("-c", &entry.full_name))
    }

    /// Opens entry `id` for editing: the launch that does it.
    pub fn edit(&self, id: u32) -> (r: Result<Launch, String>)
        requires
            self.wf(),
        ensures
            self.launch_outcome(r, id, "edit"@),
    {
        if id as usize >= self.entries.len() {
            return Err("Invalid index".to_owned());
        }
        let entry = &self.entries[id as usize];
        Ok(pass_command("edit", &entry.full_name))
    }

    /// The context actions of entry `id`: always copy, then edit.
    pub fn context(&self, id: u32) -> (r: Vec<ContextOption>)
        ensures
            all_actions(r@),
    {
        let mut ret: Vec<ContextOption> = Vec::new();
        ret.push(ContextOption { id: ContextAction::Copy.code(), name: "Copy".to_owned() });
        ret.push(ContextOption { id: ContextAction::Edit.code(), name: "Edit".to_owned() });
        ret
    }

    /// Runs the context action with code `action` on entry `id`: the launch that does it.
    pub fn activate_context(&self, id: u32, action: u32) -> (r: Result<Launch, String>)
        requires
            self.wf(),
        ensures
            action != 1 && action != 2 ==> (r matches Err(e) && e@ == "Invalid context action"@),
            action == 1 ==> self.launch_outcome(r, id, "-c"@),
            action == 2 ==> self.launch_outcome(r, id, "edit"@),
    {
        match ContextAction::from_code(action) {
            Some(ContextAction::Copy) => self.activate(id),
            Some(ContextAction::Edit) => self.edit(id),
            None => Err("Invalid context action".to_owned()),
        }
    }
}

} // verus!
