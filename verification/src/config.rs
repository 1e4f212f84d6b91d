//! In-memory configuration data: persisted defaults and named presets.
//! Reading and writing the on-disk file is the binary's concern; the rules
//! for updating the data live here.  Presets are kept in order of first
//! addition, under pairwise-distinct names.

use vstd::prelude::*;

use crate::digits::str_equal;

verus! {

/// Persisted default values consulted at argument-resolution time.
#[derive(Debug)]
pub struct Defaults {
    /// Default probe timeout in milliseconds.
    pub timeout_ms: Option<u64>,
    /// Default output format name.
    pub format: Option<String>,
    /// Default address-family preference.
    pub ipv6_only: Option<bool>,
}

impl Defaults {
    /// No defaults set.
    pub fn new() -> (r: Self)
        ensures
            r.timeout_ms is None,
            r.format is None,
            r.ipv6_only is None,
    {
        Defaults { timeout_ms: None, format: None, ipv6_only: None }
    }
}

/// One stored preset: the argument list it expands to.
#[derive(Debug)]
pub struct PresetRecord {
    /// The stored arguments.
    pub args: Vec<String>,
}

impl Clone for PresetRecord {
    fn clone(&self) -> (r: Self)
        ensures
            r.args@.len() == self.args@.len(),
            forall|i: int| 0 <= i < self.args@.len() ==> r.args@[i]@ == self.args@[i]@,
    {
        PresetRecord { args: self.args.clone() }
    }
}

/// The whole configuration: defaults and named presets.
#[derive(Debug)]
pub struct ConfigData {
    /// Persisted defaults.
    pub defaults: Defaults,
    /// Named presets, in order of first addition.
    pub presets: Vec<(String, PresetRecord)>,
}

impl ConfigData {
    /// Preset names are pairwise distinct.
    pub open spec fn wf(&self) -> bool {
        forall|i: int, j: int|
            0 <= i < j < self.presets@.len() ==> self.presets@[i].0@ != self.presets@[j].0@
    }

    /// `j` is the position of the preset named `name`.
    pub open spec fn preset_at(&self, name: Seq<char>, j: int) -> bool {
        0 <= j < self.presets@.len() && self.presets@[j].0@ == name
    }

    /// An empty configuration.
    pub fn new() -> (r: Self)
        ensures
            r.wf(),
            r.presets@.len() == 0,
            r.defaults.timeout_ms is None,
            r.defaults.format is None,
            r.defaults.ipv6_only is None,
    {
        ConfigData { defaults: Defaults::new(), presets: Vec::new() }
    }

    /// Set or clear the default timeout.
    pub fn update_timeout(&mut self, value: Option<u64>)
        ensures
            final(self).defaults.timeout_ms == value,
            final(self).defaults.format == old(self).defaults.format,
            final(self).defaults.ipv6_only == old(self).defaults.ipv6_only,
            final(self).presets@ == old(self).presets@,
    {
        self.defaults.timeout_ms = value;
    }

    /// Set or clear the default format.
    pub fn update_format(&mut self, value: Option<String>)
        ensures
            final(self).defaults.format == value,
            final(self).defaults.timeout_ms == old(self).defaults.timeout_ms,
            final(self).defaults.ipv6_only == old(self).defaults.ipv6_only,
            final(self).presets@ == old(self).presets@,
    {
        self.defaults.format = value;
    }

    /// Set or clear the default address-family preference.
    pub fn update_ipv6(&mut self, value: Option<bool>)
        ensures
            final(self).defaults.ipv6_only == value,
            final(self).defaults.timeout_ms == old(self).defaults.timeout_ms,
            final(self).defaults.format == old(self).defaults.format,
            final(self).presets@ == old(self).presets@,
    {
        self.defaults.ipv6_only = value;
    }

    /// Store a preset under a name: an existing preset of that name is
    /// replaced in place, otherwise the preset is appended.  No other
    /// preset moves.
    pub fn add_preset(&mut self, name: String, args: Vec<String>)
        requires
            old(self).wf(),
        ensures
            final(self).wf(),
            final(self).defaults == old(self).defaults,
            (exists|j: int| old(self).preset_at(name@, j)) ==> {
                &&& final(self).presets@.len() == old(self).presets@.len()
                &&& forall|j: int|
                    0 <= j < old(self).presets@.len() && old(self).presets@[j].0@ != name@
                        ==> final(self).presets@[j] == old(self).presets@[j]
                &&& forall|j: int|
                    0 <= j < old(self).presets@.len() && old(self).presets@[j].0@ == name@
                        ==> final(self).presets@[j].0@ == name@ && final(self).presets@[j].1.args@
                        == args@
            },
            !(exists|j: int| old(self).preset_at(name@, j)) ==> {
                &&& final(self).presets@.len() == old(self).presets@.len() + 1
                &&& forall|j: int|
                    0 <= j < old(self).presets@.len() ==> final(self).presets@[j] == old(self).presets@[j]
                &&& final(self).presets@.last().0@ == name@
                &&& final(self).presets@.last().1.args@ == args@
            },
    {
        let n = self.presets.len();
        let mut i: usize = 0;
        while i < n
            invariant
                0 <= i <= n,
                n == self.presets@.len(),
                self.wf(),
                *self == *old(self),
                forall|j: int| 0 <= j < i ==> self.presets@[j].0@ != name@,
            decreases n - i,
        {
            if self.presets[i].0 == name {
                let ghost before = self.presets@;
                let _ = self.presets.remove(i);
                self.presets.insert(i, (name, PresetRecord { args }));
                proof {
                    assert(old(self).preset_at(name@, i as int));
                    assert(self.presets@.len() == before.len());
                    assert(forall|j: int|
                        0 <= j < before.len() && j != i ==> self.presets@[j] == before[j]);
                    assert(forall|j: int|
                        0 <= j < before.len() && before[j].0@ == name@ ==> j == i);
                }
                return ;
            }
            i = i + 1;
        }
        self.presets.push((name, PresetRecord { args }));
    }

    /// Remove the preset of a name, reporting whether one was there.  The
    /// remaining presets keep their relative order.
    pub fn remove_preset(&mut self, name: &str) -> (removed: bool)
        requires
            old(self).wf(),
        ensures
            final(self).wf(),
            final(self).defaults == old(self).defaults,
            removed <==> exists|j: int| old(self).preset_at(name@, j),
            removed ==> exists|j: int|
                {
                    &&& #[trigger] old(self).preset_at(name@, j)
                    &&& final(self).presets@.len() == old(self).presets@.len() - 1
                    &&& forall|k: int| 0 <= k < j ==> final(self).presets@[k] == old(self).presets@[k]
                    &&& forall|k: int|
                        j <= k < final(self).presets@.len() ==> final(self).presets@[k]
                            == old(self).presets@[k + 1]
                },
            !removed ==> final(self).presets@ == old(self).presets@,
    {
        let n = self.presets.len();
        let mut i: usize = 0;
        while i < n
            invariant
                0 <= i <= n,
                n == self.presets@.len(),
                self.wf(),
                *self == *old(self),
                forall|j: int| 0 <= j < i ==> self.presets@[j].0@ != name@,
            decreases n - i,
        {
            if str_equal(self.presets[i].0.as_str(), name) {
                let ghost before = self.presets@;
                let _ = self.presets.remove(i);
                proof {
                    assert(old(self).preset_at(name@, i as int));
                    assert(forall|k: int|
                        0 <= k < i ==> self.presets@[k] == before[k]);
                    assert(forall|k: int|
                        i <= k < self.presets@.len() ==> self.presets@[k] == before[k + 1]);
                }
                return true;
            }
            i = i + 1;
        }
        false
    }

    /// Look a preset up by name.
    pub fn preset(&self, name: &str) -> (r: Option<&PresetRecord>)
        requires
            self.wf(),
        ensures
            r is Some <==> exists|j: int| self.preset_at(name@, j),
            r matches Some(p) ==> exists|j: int|
                #[trigger] self.preset_at(name@, j) && *p == self.presets@[j].1,
    {
        let n = self.presets.len();
        let mut i: usize = 0;
        while i < n
            invariant
                0 <= i <= n,
                n == self.presets@.len(),
                forall|j: int| 0 <= j < i ==> self.presets@[j].0@ != name@,
            decreases n - i,
        {
            if str_equal(self.presets[i].0.as_str(), name) {
                proof {
                    assert(self.preset_at(name@, i as int));
                }
                return Some(&self.presets[i].1);
            }
            i = i + 1;
        }
        None
    }
}

} // verus!
