//! Scoped name bindings: a stack of frames mapping names to values.
//!
//! An [`Environment`] always holds at least one frame. The outermost frame
//! (index zero) is the global frame, created once and never popped; local
//! frames are pushed when a scripted function is entered and popped on
//! return. Writes go either to the innermost frame (`define_local`) or to
//! the global frame (`define_global`), independent of the current depth.
//! Within a frame, keys are unique and the last write wins.

use vstd::prelude::*;

use crate::value::{value_model, Value, ValueModel};

verus! {

/// The model of one frame: a finite mapping from names to value models.
pub type FrameModel = Map<Seq<char>, ValueModel>;

/// One scope level: a mapping from names to values, keys unique.
pub struct Frame {
    entries: Vec<(String, Value)>,
}

/// The mapping described by an entry sequence, later entries winning.
pub open spec fn entries_map(s: Seq<(String, Value)>) -> FrameModel
    decreases s.len(),
{
    if s.len() == 0 {
        Map::empty()
    } else {
        entries_map(s.drop_last()).insert(s.last().0@, value_model(s.last().1))
    }
}

/// No two entries share a name.
pub open spec fn distinct_keys(s: Seq<(String, Value)>) -> bool {
    forall|i: int, j: int| 0 <= i < j < s.len() ==> s[i].0@ != s[j].0@
}

/// A name of the mapping is the name of some entry, and the mapping returns
/// that entry's value wherever the names are unique.
proof fn lemma_entries_map_index(s: Seq<(String, Value)>, k: Seq<char>)
    ensures
        entries_map(s).contains_key(k) <==> exists|i: int| 0 <= i < s.len() && s[i].0@ == k,
        distinct_keys(s) ==> forall|i: int|
            0 <= i < s.len() && s[i].0@ == k ==> entries_map(s).contains_key(k) && entries_map(s)[k]
                == value_model(s[i].1),
    decreases s.len(),
{
    if s.len() > 0 {
        lemma_entries_map_index(s.drop_last(), k);
        if entries_map(s).contains_key(k) {
            if s.last().0@ == k {
                assert(s[s.len() - 1].0@ == k);
            } else {
                assert(entries_map(s.drop_last()).contains_key(k));
                let j = choose|j: int|
                    0 <= j < s.drop_last().len() && s.drop_last()[j].0@ == k;
                assert(s[j].0@ == k);
            }
        }
        if exists|i: int| 0 <= i < s.len() && s[i].0@ == k {
            let i = choose|i: int| 0 <= i < s.len() && s[i].0@ == k;
            if i < s.len() - 1 {
                assert(s.drop_last()[i].0@ == k);
                assert(entries_map(s.drop_last()).contains_key(k));
            }
            assert(entries_map(s).contains_key(k));
        }
        if distinct_keys(s) {
            assert(distinct_keys(s.drop_last()));
            assert forall|i: int| 0 <= i < s.len() && s[i].0@ == k implies entries_map(
                s,
            ).contains_key(k) && entries_map(s)[k] == value_model(s[i].1) by {
                if i < s.len() - 1 {
                    assert(s.drop_last()[i] == s[i]);
                    assert(s[i].0@ != s.last().0@);
                }
            }
        }
    }
}

/// Replacing the value of the entry that holds a name updates the mapping at
/// that name alone, wherever the names are unique.
proof fn lemma_entries_map_update(s: Seq<(String, Value)>, i: int, k: String, v: Value)
    requires
        0 <= i < s.len(),
        distinct_keys(s),
        s[i].0@ == k@,
    ensures
        entries_map(s.update(i, (k, v))) == entries_map(s).insert(k@, value_model(v)),
    decreases s.len(),
{
    let s2 = s.update(i, (k, v));
    if i == s.len() - 1 {
        assert(s2.drop_last() =~= s.drop_last());
        assert(entries_map(s2) =~= entries_map(s).insert(k@, value_model(v)));
    } else {
        assert(distinct_keys(s.drop_last()));
        assert(s.drop_last()[i] == s[i]);
        lemma_entries_map_update(s.drop_last(), i, k, v);
        assert(s2.drop_last() =~= s.drop_last().update(i, (k, v)));
        assert(s2.last() == s.last());
        assert(s[i].0@ != s.last().0@);
        assert(entries_map(s2) =~= entries_map(s).insert(k@, value_model(v)));
    }
}

impl View for Frame {
    type V = FrameModel;

    closed spec fn view(&self) -> FrameModel {
        entries_map(self.entries@)
    }
}

impl Frame {
    /// Keys of the frame are unique.
    pub closed spec fn wf(&self) -> bool {
        distinct_keys(self.entries@)
    }

    /// An empty frame.
    pub fn new() -> (r: Frame)
        ensures
            r.wf(),
            r@ == FrameModel::empty(),
    {
        Frame { entries: Vec::new() }
    }

    /// Bind `name` to `value` in this frame, replacing any earlier binding
    /// of the same name.
    #[verifier::loop_isolation(false)]
    pub fn set(&mut self, name: &String, value: Value)
        requires
            old(self).wf(),
        ensures
            final(self).wf(),
            final(self)@ == old(self)@.insert(name@, value@),
    {
        let ghost s0 = self.entries@;
        let ghost v0 = value;
        let n = self.entries.len();
        let mut i: usize = 0;
        while i < n
            invariant
                n == self.entries@.len(),
                i <= n,
                self.entries@ == s0,
                distinct_keys(s0),
                forall|j: int| 0 <= j < i ==> s0[j].0@ != name@,
            decreases n - i,
        {
            if self.entries[i].0 == *name {
                let pair = (name.clone(), value);
                let ghost gpair = pair;
                self.entries[i] = pair;
                proof {
                    assert(gpair.0@ == name@);
                    lemma_entries_map_update(s0, i as int, gpair.0, gpair.1);
                    assert(self.entries@ =~= s0.update(i as int, gpair));
                    assert(gpair.1 == v0);
                    assert(entries_map(self.entries@) == entries_map(s0).insert(
                        name@,
                        value_model(v0),
                    ));
                    assert forall|p: int, q: int|
                        0 <= p < q < self.entries@.len() implies self.entries@[p].0@
                        != self.entries@[q].0@ by {
                        assert(s0[p].0@ != s0[q].0@);
                    }
                }
                return ;
            }
            i = i + 1;
        }
        self.entries.push((name.clone(), value));
        proof {
            assert(self.entries@.drop_last() =~= s0);
            assert(self.entries@.last().1 == v0);
            assert(self.entries@.last().0@ == name@);
            assert forall|p: int, q: int|
                0 <= p < q < self.entries@.len() implies self.entries@[p].0@
                != self.entries@[q].0@ by {
                if q < self.entries@.len() - 1 {
                    assert(s0[p] == self.entries@[p] && s0[q] == self.entries@[q]);
                } else {
                    assert(s0[p] == self.entries@[p]);
                }
            }
        }
    }

    /// Look a name up in this frame.
    #[verifier::loop_isolation(false)]
    pub fn get(&self, name: &String) -> (r: Option<&Value>)
        requires
            self.wf(),
        ensures
            match r {
                Option::Some(v) => self@.contains_key(name@) && v@ == self@[name@],
                Option::None => !self@.contains_key(name@),
            },
    {
        proof {
            lemma_entries_map_index(self.entries@, name@);
        }
        let n = self.entries.len();
        let mut i: usize = 0;
        while i < n
            invariant
                n == self.entries@.len(),
                i <= n,
                self.wf(),
                forall|j: int| 0 <= j < i ==> self.entries@[j].0@ != name@,
                entries_map(self.entries@).contains_key(name@) <==> exists|j: int|
                    0 <= j < self.entries@.len() && self.entries@[j].0@ == name@,
                distinct_keys(self.entries@) ==> forall|j: int|
                    0 <= j < self.entries@.len() && self.entries@[j].0@ == name@ ==> entries_map(
                        self.entries@,
                    ).contains_key(name@) && entries_map(self.entries@)[name@] == value_model(
                        self.entries@[j].1,
                    ),
            decreases n - i,
        {
            if self.entries[i].0 == *name {
                return Option::Some(&self.entries[i].1);
            }
            i = i + 1;
        }
        Option::None
    }
}

/// The model of an environment: the frame mappings, outermost first.
pub open spec fn frames_model(s: Seq<Frame>) -> Seq<FrameModel> {
    Seq::new(s.len(), |i: int| if 0 <= i < s.len() { s[i]@ } else { FrameModel::empty() })
}

/// The stack of frames. The frame at index zero is the global frame; the
/// last frame is the current (innermost) one.
pub struct Environment {
    frames: Vec<Frame>,
}

impl View for Environment {
    type V = Seq<FrameModel>;

    closed spec fn view(&self) -> Seq<FrameModel> {
        frames_model(self.frames@)
    }
}

/// The name resolution rule: the innermost frame that binds the name wins.
pub open spec fn env_lookup(frames: Seq<FrameModel>, k: Seq<char>) -> Option<ValueModel>
    decreases frames.len(),
{
    if frames.len() == 0 {
        Option::None
    } else if frames.last().contains_key(k) {
        Option::Some(frames.last()[k])
    } else {
        env_lookup(frames.drop_last(), k)
    }
}

impl Environment {
    /// There is always a global frame, and every frame's keys are unique.
    pub closed spec fn wf(&self) -> bool {
        self.frames@.len() >= 1 && forall|i: int|
            0 <= i < self.frames@.len() ==> (#[trigger] self.frames@[i]).wf()
    }

    /// A fresh environment holding only the empty global frame.
    pub fn new() -> (r: Environment)
        ensures
            r.wf(),
            r@ =~= seq![FrameModel::empty()],
    {
        let mut frames: Vec<Frame> = Vec::new();
        frames.push(Frame::new());
        Environment { frames }
    }

    /// How many frames are on the stack.
    pub fn depth(&self) -> (r: usize)
        ensures
            r == self@.len(),
    {
        self.frames.len()
    }

    /// Enter a scope: push an empty frame, which becomes the current one.
    pub fn push_frame(&mut self)
        requires
            old(self).wf(),
        ensures
            final(self).wf(),
            final(self)@ =~= old(self)@.push(FrameModel::empty()),
    {
        self.frames.push(Frame::new());
        proof {
            assert(forall|i: int|
                0 <= i < old(self).frames@.len() ==> self.frames@[i] == old(self).frames@[i]);
        }
    }

    /// Leave a scope: pop the current frame. The global frame is never
    /// popped.
    pub fn pop_frame(&mut self)
        requires
            old(self).wf(),
            old(self)@.len() >= 2,
        ensures
            final(self).wf(),
            final(self)@ =~= old(self)@.drop_last(),
    {
        let _ = self.frames.pop();
        proof {
            assert(forall|i: int|
                0 <= i < self.frames@.len() ==> self.frames@[i] == old(self).frames@[i]);
        }
    }

    /// Bind `name` in the current (innermost) frame.
    pub fn define_local(&mut self, name: &String, value: Value)
        requires
            old(self).wf(),
        ensures
            final(self).wf(),
            final(self)@ =~= old(self)@.update(
                old(self)@.len() - 1,
                old(self)@.last().insert(name@, value@),
            ),
    {
        let ghost v_model = value@;
        let last = self.frames.len() - 1;
        let frame = &mut self.frames[last];
        frame.set(name, value);
        proof {
            assert(forall|i: int|
                0 <= i < self.frames@.len() && i != last ==> self.frames@[i] == old(
                    self,
                ).frames@[i]);
            assert(self.frames@[last as int]@ == old(self)@.last().insert(name@, v_model));
        }
    }

    /// Bind `name` in the global (outermost) frame, visible from any scope
    /// entered afterward.
    pub fn define_global(&mut self, name: &String, value: Value)
        requires
            old(self).wf(),
        ensures
            final(self).wf(),
            final(self)@ =~= old(self)@.update(0, old(self)@[0].insert(name@, value@)),
    {
        let ghost v_model = value@;
        let frame = &mut self.frames[0];
        frame.set(name, value);
        proof {
            assert(forall|i: int|
                0 < i < self.frames@.len() ==> self.frames@[i] == old(self).frames@[i]);
            assert(self.frames@[0]@ == old(self)@[0].insert(name@, v_model));
        }
    }

    /// Resolve a name, innermost frame first.
    #[verifier::loop_isolation(false)]
    pub fn lookup(&self, name: &String) -> (r: Option<&Value>)
        requires
            self.wf(),
        ensures
            match r {
                Option::Some(v) => env_lookup(self@, name@) == Option::Some(v@),
                Option::None => env_lookup(self@, name@) == Option::<ValueModel>::None,
            },
    {
        let n = self.frames.len();
        let mut i: usize = n;
        proof {
            assert(self@.take(n as int) =~= self@);
        }
        while i > 0
            invariant
                self.wf(),
                n == self.frames@.len(),
                i <= n,
                env_lookup(self@, name@) == env_lookup(self@.take(i as int), name@),
            decreases i,
        {
            i = i - 1;
            proof {
                assert(self@.take(i + 1).drop_last() =~= self@.take(i as int));
                assert(self@.take(i + 1).last() == self@[i as int]);
                assert(self@[i as int] == self.frames@[i as int]@);
            }
            match self.frames[i].get(name) {
                Option::Some(v) => {
                    return Option::Some(v);
                },
                Option::None => {},
            }
        }
        proof {
            assert(self@.take(0) =~= Seq::<FrameModel>::empty());
        }
        Option::None
    }
}

/// Entering a scope: a fresh empty frame becomes the current one.
pub open spec fn env_push(e: Seq<FrameModel>) -> Seq<FrameModel> {
    e.push(Map::empty())
}

/// Leaving a scope: the current frame is dropped.
pub open spec fn env_pop(e: Seq<FrameModel>) -> Seq<FrameModel> {
    e.drop_last()
}

/// What binding a name in the current frame does to the frames.
pub open spec fn env_define_local(e: Seq<FrameModel>, k: Seq<char>, v: ValueModel) -> Seq<
    FrameModel,
> {
    e.update(e.len() - 1, e.last().insert(k, v))
}

/// What binding a name in the global frame does to the frames.
pub open spec fn env_define_global(e: Seq<FrameModel>, k: Seq<char>, v: ValueModel) -> Seq<
    FrameModel,
> {
    e.update(0, e[0].insert(k, v))
}

/// Name resolution falls through to the global frame wherever no inner frame
/// binds the name.
proof fn lemma_env_lookup_unshadowed(e: Seq<FrameModel>, k: Seq<char>)
    requires
        e.len() >= 1,
        forall|i: int| 1 <= i < e.len() ==> !(#[trigger] e[i]).contains_key(k),
    ensures
        env_lookup(e, k) == if e[0].contains_key(k) {
            Option::Some(e[0][k])
        } else {
            Option::<ValueModel>::None
        },
    decreases e.len(),
{
    if e.len() == 1 {
        assert(e.drop_last().len() == 0);
    } else {
        assert(!e[e.len() - 1].contains_key(k));
        assert(forall|i: int|
            1 <= i < e.drop_last().len() ==> !(#[trigger] e.drop_last()[i]).contains_key(k));
        lemma_env_lookup_unshadowed(e.drop_last(), k);
    }
}

/// A binding made in the current frame of a freshly pushed scope is gone once
/// that scope is popped: push, local bind, pop returns the environment to
/// exactly its earlier state, so the binding is not visible afterwards.
pub proof fn lemma_local_binding_scoped(e: Seq<FrameModel>, k: Seq<char>, v: ValueModel)
    requires
        e.len() >= 1,
    ensures
        env_pop(env_define_local(env_push(e), k, v)) == e,
{
    assert(env_pop(env_define_local(env_push(e), k, v)) =~= e);
}

/// A binding made in the global frame from inside a pushed scope survives the
/// pop: the result is exactly the earlier environment with the global binding
/// added, and wherever no surviving inner frame shadows the name, looking it
/// up finds the bound value.
pub proof fn lemma_global_binding_survives(e: Seq<FrameModel>, k: Seq<char>, v: ValueModel)
    requires
        e.len() >= 1,
    ensures
        env_pop(env_define_global(env_push(e), k, v)) == env_define_global(e, k, v),
        (forall|i: int| 1 <= i < e.len() ==> !(#[trigger] e[i]).contains_key(k)) ==> env_lookup(
            env_pop(env_define_global(env_push(e), k, v)),
            k,
        ) == Option::Some(v),
{
    let after = env_pop(env_define_global(env_push(e), k, v));
    assert(after =~= env_define_global(e, k, v));
    if forall|i: int| 1 <= i < e.len() ==> !(#[trigger] e[i]).contains_key(k) {
        assert(forall|i: int| 1 <= i < after.len() ==> after[i] == e[i]);
        assert(forall|i: int| 1 <= i < after.len() ==> !(#[trigger] after[i]).contains_key(k));
        lemma_env_lookup_unshadowed(after, k);
        assert(after[0] == e[0].insert(k, v));
    }
}

} // verus!
