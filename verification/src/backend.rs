//! What a virtualization backend keeps: the instances that are registered
//! with it and whether each of them runs. The registry states what every
//! backend has to do on import, start, terminate and unregister, and it
//! answers status queries for a snapshot of a backend's instance list.

use crate::status::PlatformStatus;
use crate::text::{trim, trimmed};
use vstd::prelude::*;
use vstd::string::*;

verus! {

/// One registered instance.
#[derive(Debug, PartialEq, Eq)]
pub struct Instance {
    pub name: String,
    pub running: bool,
}

/// Mathematical value of an [`Instance`].
pub struct InstanceView {
    pub name: Seq<char>,
    pub running: bool,
}

impl View for Instance {
    type V = InstanceView;

    open spec fn view(&self) -> InstanceView {
        InstanceView { name: self.name@, running: self.running }
    }
}

impl DeepView for Instance {
    type V = InstanceView;

    open spec fn deep_view(&self) -> InstanceView {
        self@
    }
}

/// The instances registered with a backend.
#[derive(Debug, PartialEq, Eq)]
pub struct Registry {
    pub instances: Vec<Instance>,
}

/// Some entry of `list` is called `name`.
pub open spec fn registered(list: Seq<InstanceView>, name: Seq<char>) -> bool {
    exists|i: int| 0 <= i < list.len() && (#[trigger] list[i]).name == name
}

/// Some entry of `list` is called `name` and runs.
pub open spec fn active(list: Seq<InstanceView>, name: Seq<char>) -> bool {
    exists|i: int| 0 <= i < list.len() && (#[trigger] list[i]).name == name && list[i].running
}

/// `list` without the entries called `name`.
pub open spec fn without(list: Seq<InstanceView>, name: Seq<char>) -> Seq<InstanceView>
    decreases list.len(),
{
    if list.len() == 0 {
        Seq::empty()
    } else if list.last().name == name {
        without(list.drop_last(), name)
    } else {
        without(list.drop_last(), name).push(list.last())
    }
}

/// No two entries of `list` have the same name.
pub open spec fn distinct_instances(list: Seq<InstanceView>) -> bool {
    forall|i: int, j: int|
        0 <= i < j < list.len() ==> (#[trigger] list[i]).name != (#[trigger] list[j]).name
}

/// The run-state of `name` in a backend whose instances are `instances`:
/// each registered name with whether it runs.
pub open spec fn status_in(instances: Map<Seq<char>, bool>, name: Seq<char>) -> PlatformStatus {
    if !instances.dom().contains(name) {
        PlatformStatus::NotInstalled
    } else if instances[name] {
        PlatformStatus::Running
    } else {
        PlatformStatus::Stopped
    }
}

/// The backend after an import of `name`: a new, stopped instance where the
/// name was free, and no change where it was taken.
pub open spec fn imported(instances: Map<Seq<char>, bool>, name: Seq<char>) -> Map<
    Seq<char>,
    bool,
> {
    if instances.dom().contains(name) {
        instances
    } else {
        instances.insert(name, false)
    }
}

/// The backend after `name` was started or terminated: the instance runs or
/// not as asked, and a name that is not registered changes nothing.
pub open spec fn switched(instances: Map<Seq<char>, bool>, name: Seq<char>, running: bool) -> Map<
    Seq<char>,
    bool,
> {
    if instances.dom().contains(name) {
        instances.insert(name, running)
    } else {
        instances
    }
}

/// The backend whose registered instances are `all` and whose running
/// instances are those of `all` that `running` names.
pub open spec fn listed(all: Seq<Seq<char>>, running: Seq<Seq<char>>) -> Map<Seq<char>, bool> {
    Map::new(|n: Seq<char>| all.contains(n), |n: Seq<char>| running.contains(n))
}

/// Where the last line of `text` begins: behind its last line feed.
pub open spec fn last_line_start(text: Seq<char>) -> int
    decreases text.len(),
{
    if text.len() == 0 {
        0
    } else if text.last() == '\n' {
        text.len() as int
    } else {
        last_line_start(text.drop_last())
    }
}

/// The names that a listing of the backend holds: its lines without
/// surrounding white space, except the lines that are empty then.
pub open spec fn names_in(text: Seq<char>) -> Seq<Seq<char>>
    decreases text.len(),
{
    if text.len() == 0 {
        Seq::empty()
    } else {
        let start = last_line_start(text);
        let name = trimmed(text.subrange(start, text.len() as int));
        let before = if 0 < start <= text.len() {
            names_in(text.subrange(0, start - 1))
        } else {
            Seq::empty()
        };
        if name.len() > 0 {
            before.push(name)
        } else {
            before
        }
    }
}

impl Registry {
    /// A backend registers every name once.
    pub open spec fn well_formed(&self) -> bool {
        distinct_instances(self.instances.deep_view())
    }
}

impl View for Registry {
    type V = Map<Seq<char>, bool>;

    open spec fn view(&self) -> Map<Seq<char>, bool> {
        Map::new(
            |n: Seq<char>| registered(self.instances.deep_view(), n),
            |n: Seq<char>| active(self.instances.deep_view(), n),
        )
    }
}

/// The last line begins where the text's last line feed ends.
proof fn lemma_last_line_start(text: Seq<char>, start: int)
    requires
        0 <= start <= text.len(),
        start > 0 ==> text[start - 1] == '\n',
        forall|k: int| start <= k < text.len() ==> text[k] != '\n',
    ensures
        last_line_start(text) == start,
    decreases text.len(),
{
    if text.len() > 0 && text.last() != '\n' {
        lemma_last_line_start(text.drop_last(), start);
    }
}

/// What is left after a removal was there before, in the same order, so
/// that a list of single names stays one.
proof fn lemma_without_distinct(list: Seq<InstanceView>, name: Seq<char>)
    requires
        distinct_instances(list),
    ensures
        distinct_instances(without(list, name)),
        forall|k: int|
            0 <= k < without(list, name).len() ==> registered(
                list,
                (#[trigger] without(list, name)[k]).name,
            ),
    decreases list.len(),
{
    if list.len() > 0 {
        let init = list.drop_last();
        let last = list.last();
        lemma_without_distinct(init, name);
        let rest = without(init, name);
        let kept = without(list, name);
        assert forall|k: int| 0 <= k < rest.len() implies registered(
            list,
            (#[trigger] rest[k]).name,
        ) && rest[k].name != last.name by {
            let j = choose|j: int| 0 <= j < init.len() && (#[trigger] init[j]).name == rest[k].name;
            assert(list[j].name == rest[k].name);
            assert(list[list.len() - 1] == last);
        }
        if last.name != name {
            assert forall|k: int| 0 <= k < kept.len() implies registered(
                list,
                (#[trigger] kept[k]).name,
            ) by {
                if k < rest.len() {
                    assert(kept[k] == rest[k]);
                }
            }
        }
    }
}

proof fn lemma_without(list: Seq<InstanceView>, name: Seq<char>, other: Seq<char>)
    ensures
        registered(without(list, name), other) == (other != name && registered(list, other)),
        active(without(list, name), other) == (other != name && active(list, other)),
    decreases list.len(),
{
    if list.len() > 0 {
        let init = list.drop_last();
        let last = list.last();
        lemma_without(init, name, other);
        let rest = without(init, name);
        let kept = without(list, name);
        if registered(list, other) {
            let k = choose|k: int| 0 <= k < list.len() && (#[trigger] list[k]).name == other;
            if k < init.len() {
                assert(init[k].name == other);
            }
        }
        if registered(init, other) {
            let k = choose|k: int| 0 <= k < init.len() && (#[trigger] init[k]).name == other;
            assert(list[k].name == other);
        }
        if active(list, other) {
            let k = choose|k: int|
                0 <= k < list.len() && (#[trigger] list[k]).name == other && list[k].running;
            if k < init.len() {
                assert(init[k].name == other && init[k].running);
            }
        }
        if active(init, other) {
            let k = choose|k: int|
                0 <= k < init.len() && (#[trigger] init[k]).name == other && init[k].running;
            assert(list[k].name == other && list[k].running);
        }
        if last.name != name {
            assert(kept[kept.len() - 1] == last);
            if registered(rest, other) {
                let k = choose|k: int| 0 <= k < rest.len() && (#[trigger] rest[k]).name == other;
                assert(kept[k].name == other);
            }
            if registered(kept, other) {
                let k = choose|k: int| 0 <= k < kept.len() && (#[trigger] kept[k]).name == other;
                if k < rest.len() {
                    assert(rest[k].name == other);
                }
            }
            if active(rest, other) {
                let k = choose|k: int|
                    0 <= k < rest.len() && (#[trigger] rest[k]).name == other && rest[k].running;
                assert(kept[k].name == other && kept[k].running);
            }
            if active(kept, other) {
                let k = choose|k: int|
                    0 <= k < kept.len() && (#[trigger] kept[k]).name == other && kept[k].running;
                if k < rest.len() {
                    assert(rest[k].name == other && rest[k].running);
                }
            }
        }
    }
}

impl Registry {
    /// A backend without instances.
    pub fn new() -> (r: Registry)
        ensures
            r@ == Map::<Seq<char>, bool>::empty(),
            r.well_formed(),
    {
        let r = Registry { instances: Vec::new() };
        r
    }

    /// The backend as its two listings show it: the names of all registered
    /// instances, and the names of the running ones.
    pub fn from_lists(all: &Vec<String>, running: &Vec<String>) -> (r: Registry)
        ensures
            r@ == listed(all.deep_view(), running.deep_view()),
    {
        let mut instances: Vec<Instance> = Vec::new();
        let mut i: usize = 0;
        while i < all.len()
            invariant
                i <= all.len(),
                instances.len() == i,
                forall|j: int|
                    0 <= j < i ==> (#[trigger] instances@[j]).name@ == all@[j]@
                        && instances@[j].running == running.deep_view().contains(all@[j]@),
            decreases all.len() - i,
        {
            let mut found = false;
            let mut k: usize = 0;
            while k < running.len()
                invariant
                    k <= running.len(),
                    i < all.len(),
                    found == exists|j: int| 0 <= j < k && running@[j]@ == all@[i as int]@,
                decreases running.len() - k,
            {
                if running[k] == all[i] {
                    found = true;
                }
                k = k + 1;
            }
            proof {
                let names = running.deep_view();
                if found {
                    let j = choose|j: int| 0 <= j < k && running@[j]@ == all@[i as int]@;
                    assert(names[j] == all@[i as int]@);
                }
                if names.contains(all@[i as int]@) {
                    let j = choose|j: int| 0 <= j < names.len() && names[j] == all@[i as int]@;
                    assert(running@[j]@ == all@[i as int]@);
                }
            }
            instances.push(Instance { name: all[i].clone(), running: found });
            i = i + 1;
        }
        let r = Registry { instances };
        proof {
            let list = r.instances.deep_view();
            let names = all.deep_view();
            let up = running.deep_view();
            assert forall|n: Seq<char>| registered(list, n) == names.contains(n) by {
                if registered(list, n) {
                    let j = choose|j: int| 0 <= j < list.len() && (#[trigger] list[j]).name == n;
                    assert(names[j] == n);
                }
                if names.contains(n) {
                    let j = choose|j: int| 0 <= j < names.len() && names[j] == n;
                    assert(list[j].name == n);
                }
            }
            assert forall|n: Seq<char>| names.contains(n) implies active(list, n) == up.contains(
                n,
            ) by {
                let j = choose|j: int| 0 <= j < names.len() && names[j] == n;
                assert(list[j].name == n);
                if active(list, n) {
                    let k = choose|k: int|
                        0 <= k < list.len() && (#[trigger] list[k]).name == n && list[k].running;
                    assert(names[k] == n);
                }
            }
        }
        r
    }

    /// The backend as the texts of its two listings show it: one name on
    /// each line, first of all registered instances, then of the running
    /// ones.
    pub fn from_listings(all: &str, running: &str) -> (r: Registry)
        ensures
            r@ == listed(names_in(all@), names_in(running@)),
    {
        Registry::from_lists(&listed_names(all), &listed_names(running))
    }

    /// The position of an entry called `name`, if there is one.
    fn find(&self, name: &str) -> (r: Option<usize>)
        ensures
            match r {
                Some(i) => i < self.instances.len() && self.instances@[i as int].name@ == name@,
                None => !registered(self.instances.deep_view(), name@),
            },
    {
        let wanted = String::from_str(name);
        let mut i: usize = 0;
        while i < self.instances.len()
            invariant
                i <= self.instances.len(),
                wanted@ == name@,
                forall|j: int| 0 <= j < i ==> self.instances@[j].name@ != name@,
            decreases self.instances.len() - i,
        {
            if self.instances[i].name == wanted {
                return Some(i);
            }
            i = i + 1;
        }
        None
    }

    /// Whether an entry called `name` runs.
    fn runs(&self, name: &str) -> (r: bool)
        ensures
            r == active(self.instances.deep_view(), name@),
    {
        let wanted = String::from_str(name);
        let mut i: usize = 0;
        while i < self.instances.len()
            invariant
                i <= self.instances.len(),
                wanted@ == name@,
                forall|j: int|
                    0 <= j < i ==> !(self.instances@[j].name@ == name@
                        && self.instances@[j].running),
            decreases self.instances.len() - i,
        {
            if self.instances[i].running && self.instances[i].name == wanted {
                assert(self.instances.deep_view()[i as int].name == name@);
                return true;
            }
            i = i + 1;
        }
        false
    }

    /// The run-state of the instance called `name`. The query changes
    /// nothing.
    pub fn status(&self, name: &str) -> (r: PlatformStatus)
        ensures
            r == status_in(self@, name@),
    {
        match self.find(name) {
            None => PlatformStatus::NotInstalled,
            Some(i) => {
                assert(self.instances.deep_view()[i as int].name == name@);
                if self.runs(name) {
                    PlatformStatus::Running
                } else {
                    PlatformStatus::Stopped
                }
            },
        }
    }

    /// Registers a new, stopped instance called `name`, unless the name is
    /// taken: then nothing changes. The result says whether a fresh import
    /// took place, which is when first-boot provisioning is due.
    pub fn import(&mut self, name: &str) -> (fresh: bool)
        ensures
            fresh == !old(self)@.dom().contains(name@),
            final(self)@ == imported(old(self)@, name@),
            old(self).well_formed() ==> final(self).well_formed(),
    {
        let ghost before = self.instances.deep_view();
        match self.find(name) {
            Some(i) => {
                assert(before[i as int].name == name@);
                false
            },
            None => {
                self.instances.push(Instance { name: String::from_str(name), running: false });
                proof {
                    let after = self.instances.deep_view();
                    assert(after[before.len() as int].name == name@);
                    assert forall|m: Seq<char>| registered(after, m) == (m == name@ || registered(
                        before,
                        m,
                    )) by {
                        if registered(before, m) {
                            let k = choose|k: int|
                                0 <= k < before.len() && (#[trigger] before[k]).name == m;
                            assert(after[k].name == m);
                        }
                        if registered(after, m) {
                            let k = choose|k: int|
                                0 <= k < after.len() && (#[trigger] after[k]).name == m;
                            if k < before.len() {
                                assert(before[k].name == m);
                            }
                        }
                    }
                    assert forall|m: Seq<char>| active(after, m) == active(before, m) by {
                        if active(before, m) {
                            let k = choose|k: int|
                                0 <= k < before.len() && (#[trigger] before[k]).name == m
                                    && before[k].running;
                            assert(after[k].name == m && after[k].running);
                        }
                        if active(after, m) {
                            let k = choose|k: int|
                                0 <= k < after.len() && (#[trigger] after[k]).name == m
                                    && after[k].running;
                            assert(before[k].name == m && before[k].running);
                        }
                    }
                    if distinct_instances(before) {
                        assert forall|a: int, b: int| 0 <= a < b < after.len() implies (
                        #[trigger] after[a]).name != (#[trigger] after[b]).name by {
                            if b == before.len() {
                                assert(before[a].name != name@);
                            } else {
                                assert(after[a] == before[a] && after[b] == before[b]);
                            }
                        }
                    }
                }
                true
            },
        }
    }

    /// Lets every entry called `name` run or not.
    fn switch(&mut self, name: &str, running: bool)
        ensures
            final(self)@ == switched(old(self)@, name@, running),
            old(self).well_formed() ==> final(self).well_formed(),
    {
        let ghost before = self.instances.deep_view();
        let wanted = String::from_str(name);
        let mut i: usize = 0;
        while i < self.instances.len()
            invariant
                i <= self.instances.len(),
                wanted@ == name@,
                self.instances.len() == before.len(),
                forall|j: int|
                    0 <= j < before.len() ==> self.instances@[j].name@
                        == (#[trigger] before[j]).name,
                forall|j: int|
                    0 <= j < i ==> self.instances@[j].running == (if (#[trigger] before[j]).name
                        == name@ {
                        running
                    } else {
                        before[j].running
                    }),
                forall|j: int|
                    i <= j < before.len() ==> self.instances@[j].running
                        == (#[trigger] before[j]).running,
            decreases self.instances.len() - i,
        {
            if self.instances[i].name == wanted {
                let renamed = self.instances[i].name.clone();
                self.instances.set(i, Instance { name: renamed, running });
            }
            i = i + 1;
        }
        proof {
            let after = self.instances.deep_view();
            assert forall|m: Seq<char>| registered(after, m) == registered(before, m) by {
                if registered(before, m) {
                    let k = choose|k: int|
                        0 <= k < before.len() && (#[trigger] before[k]).name == m;
                    assert(after[k].name == m);
                }
                if registered(after, m) {
                    let k = choose|k: int| 0 <= k < after.len() && (#[trigger] after[k]).name == m;
                    assert(before[k].name == m);
                }
            }
            assert forall|m: Seq<char>| active(after, m) == (if m == name@ {
                running && registered(before, m)
            } else {
                active(before, m)
            }) by {
                if active(before, m) {
                    let k = choose|k: int|
                        0 <= k < before.len() && (#[trigger] before[k]).name == m
                            && before[k].running;
                    assert(after[k].name == m);
                }
                if registered(before, m) {
                    let k = choose|k: int|
                        0 <= k < before.len() && (#[trigger] before[k]).name == m;
                    assert(after[k].name == m);
                }
                if active(after, m) {
                    let k = choose|k: int|
                        0 <= k < after.len() && (#[trigger] after[k]).name == m
                            && after[k].running;
                    assert(before[k].name == m);
                }
            }
            if distinct_instances(before) {
                assert forall|a: int, b: int| 0 <= a < b < after.len() implies (#[trigger] after[
                    a
                ]).name != (#[trigger] after[b]).name by {
                    assert(after[a].name == before[a].name && after[b].name == before[b].name);
                }
            }
        }
    }

    /// Starts the instance called `name`, if it is registered.
    pub fn start(&mut self, name: &str)
        ensures
            final(self)@ == switched(old(self)@, name@, true),
            old(self).well_formed() ==> final(self).well_formed(),
    {
        self.switch(name, true)
    }

    /// Force-stops the instance called `name`, if it is registered.
    pub fn terminate(&mut self, name: &str)
        ensures
            final(self)@ == switched(old(self)@, name@, false),
            old(self).well_formed() ==> final(self).well_formed(),
    {
        self.switch(name, false)
    }

    /// Removes the instance called `name` for good.
    pub fn unregister(&mut self, name: &str)
        ensures
            final(self)@ == old(self)@.remove(name@),
            old(self).well_formed() ==> final(self).well_formed(),
    {
        let ghost before = self.instances.deep_view();
        let wanted = String::from_str(name);
        let mut kept: Vec<Instance> = Vec::new();
        let mut i: usize = 0;
        while i < self.instances.len()
            invariant
                i <= self.instances.len(),
                wanted@ == name@,
                before == self.instances.deep_view(),
                kept.deep_view() == without(before.take(i as int), name@),
            decreases self.instances.len() - i,
        {
            proof {
                assert(before.take(i as int + 1).drop_last() =~= before.take(i as int));
            }
            if !(self.instances[i].name == wanted) {
                kept.push(
                    Instance {
                        name: self.instances[i].name.clone(),
                        running: self.instances[i].running,
                    },
                );
            }
            i = i + 1;
        }
        assert(before.take(i as int) =~= before);
        self.instances = kept;
        proof {
            let after = self.instances.deep_view();
            assert forall|m: Seq<char>|
                registered(after, m) == (m != name@ && registered(before, m)) && active(after, m)
                    == (m != name@ && active(before, m)) by {
                lemma_without(before, name@, m);
            }
            if distinct_instances(before) {
                lemma_without_distinct(before, name@);
            }
        }
    }
}

/// The names that a listing of the backend holds.
pub fn listed_names(text: &str) -> (r: Vec<String>)
    ensures
        r.deep_view() == names_in(text@),
{
    let n: usize = text.unicode_len();
    let mut names: Vec<String> = Vec::new();
    let mut start: usize = 0;
    let mut i: usize = 0;
    while i < n
        invariant
            n == text@.len(),
            start <= i <= n,
            start > 0 ==> text@[start - 1] == '\n',
            forall|k: int| start <= k < i ==> text@[k] != '\n',
            names.deep_view() == if start == 0 {
                Seq::<Seq<char>>::empty()
            } else {
                names_in(text@.subrange(0, start - 1))
            },
        decreases n - i,
    {
        if text.get_char(i) == '\n' {
            let ghost line = text@.subrange(0, i as int);
            let name = trim(text.substring_char(start, i));
            proof {
                lemma_last_line_start(line, start as int);
                assert(line.subrange(start as int, i as int) =~= text@.subrange(
                    start as int,
                    i as int,
                ));
                if start > 0 {
                    assert(line.subrange(0, start - 1) =~= text@.subrange(0, start - 1));
                }
            }
            if name.as_str().unicode_len() > 0 {
                names.push(name);
            }
            start = i + 1;
        }
        i = i + 1;
    }
    let name = trim(text.substring_char(start, n));
    proof {
        lemma_last_line_start(text@, start as int);
    }
    if name.as_str().unicode_len() > 0 {
        names.push(name);
    }
    names
}

/// Before anything is imported, no name has a container.
pub proof fn lemma_status_before_install(name: Seq<char>)
    ensures
        status_in(Map::<Seq<char>, bool>::empty(), name) == PlatformStatus::NotInstalled,
{
}

/// Importing is idempotent: on a name that is registered, an import changes
/// nothing, so a second import of a name does nothing and is not fresh.
pub proof fn lemma_import_idempotent(instances: Map<Seq<char>, bool>, name: Seq<char>)
    ensures
        imported(instances, name).dom().contains(name),
        imported(imported(instances, name), name) == imported(instances, name),
        instances.dom().contains(name) ==> imported(instances, name) == instances,
{
}

/// An import leaves every other instance as it is, and a fresh instance is
/// stopped until it is started.
pub proof fn lemma_import_frame(instances: Map<Seq<char>, bool>, name: Seq<char>, other: Seq<char>)
    ensures
        other != name ==> status_in(imported(instances, name), other) == status_in(
            instances,
            other,
        ),
        !instances.dom().contains(name) ==> status_in(imported(instances, name), name)
            == PlatformStatus::Stopped,
        status_in(switched(imported(instances, name), name, true), name)
            == PlatformStatus::Running,
{
}

} // verus!
