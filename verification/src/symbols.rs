//! The environment: a stack of scope frames, innermost last, each an
//! association list from symbol names to values (later entries shadow
//! earlier ones). Its view is the `EnvV` of `semantics`.
use vstd::prelude::*;
use crate::data::Data;
use crate::semantics::{DataV, EnvV, FrameV, env_define, env_lookup};

verus! {

/// One scope frame's view: later entries win.
pub open spec fn frame_view(entries: Seq<(String, Data)>) -> FrameV
    decreases entries.len(),
{
    if entries.len() == 0 {
        Map::empty()
    } else {
        frame_view(entries.drop_last()).insert(entries.last().0@, entries.last().1@)
    }
}

/// The views of a stack of frames.
pub open spec fn frames_view(frames: Seq<Vec<(String, Data)>>) -> EnvV {
    frames.map_values(|f: Vec<(String, Data)>| frame_view(f@))
}

pub struct Symbols {
    frames: Vec<Vec<(String, Data)>>,
}

impl View for Symbols {
    type V = EnvV;

    closed spec fn view(&self) -> EnvV {
        frames_view(self.frames@)
    }
}

/// Search one frame's entries `[0, j)`, newest first.
fn frame_get_upto<'a>(frame: &'a Vec<(String, Data)>, key: &String, j: usize) -> (r: Option<
    &'a Data,
>)
    requires
        j <= frame.len(),
    ensures
        match r {
            Some(d) => frame_view(frame@.take(j as int)).contains_key(key@) && frame_view(
                frame@.take(j as int),
            )[key@] == d@,
            None => !frame_view(frame@.take(j as int)).contains_key(key@),
        },
    decreases j,
{
    if j == 0 {
        None
    } else {
        proof {
            assert(frame@.take(j as int).drop_last() =~= frame@.take(j - 1));
            assert(frame@.take(j as int).last() == frame@[j - 1]);
        }
        let entry = &frame[j - 1];
        if entry.0 == *key {
            Some(&entry.1)
        } else {
            frame_get_upto(frame, key, j - 1)
        }
    }
}

/// Search the frames `[0, i)`, innermost (last) first.
fn env_get_upto<'a>(frames: &'a Vec<Vec<(String, Data)>>, key: &String, i: usize) -> (r: Option<
    &'a Data,
>)
    requires
        i <= frames.len(),
    ensures
        match r {
            Some(d) => env_lookup(frames_view(frames@.take(i as int)), key@) == Some(d@),
            None => env_lookup(frames_view(frames@.take(i as int)), key@) is None,
        },
    decreases i,
{
    if i == 0 {
        proof {
            assert(frames_view(frames@.take(0)).len() == 0);
        }
        None
    } else {
        proof {
            assert(frames_view(frames@.take(i as int)).last() == frame_view(frames@[i - 1]@));
            assert(frames_view(frames@.take(i as int)).drop_last() =~= frames_view(
                frames@.take(i - 1),
            ));
        }
        let frame = &frames[i - 1];
        proof {
            assert(frame@.take(frame@.len() as int) =~= frame@);
        }
        match frame_get_upto(frame, key, frame.len()) {
            Some(d) => Some(d),
            None => env_get_upto(frames, key, i - 1),
        }
    }
}

impl Symbols {
    /// At least the global frame is always there.
    pub open spec fn wf(&self) -> bool {
        self@.len() >= 1
    }

    /// A fresh environment: one empty global frame.
    pub fn new() -> (r: Self)
        ensures
            r.wf(),
            r@ =~= seq![Map::<Seq<char>, DataV>::empty()],
    {
        let mut frames: Vec<Vec<(String, Data)>> = Vec::new();
        frames.push(Vec::new());
        let r = Symbols { frames };
        proof {
            assert(r@ =~= seq![frame_view(Seq::<(String, Data)>::empty())]);
        }
        r
    }

    /// Push a fresh innermost scope.
    pub fn enclose(&mut self)
        ensures
            final(self).wf(),
            final(self)@ =~= old(self)@.push(Map::empty()),
    {
        self.frames.push(Vec::new());
        proof {
            assert(final(self)@ =~= old(self)@.push(
                frame_view(Seq::<(String, Data)>::empty()),
            ));
        }
    }

    /// Pop the innermost scope, unless only the global frame is left.
    pub fn disclose(&mut self) -> (r: Option<()>)
        requires
            old(self).wf(),
        ensures
            final(self).wf(),
            if old(self)@.len() > 1 {
                r is Some && final(self)@ =~= old(self)@.drop_last()
            } else {
                r is None && final(self)@ == old(self)@
            },
    {
        if self.frames.len() > 1 {
            self.frames.pop();
            proof {
                assert(final(self)@ =~= old(self)@.drop_last());
            }
            Some(())
        } else {
            None
        }
    }

    /// Bind (or overwrite) `key` in the innermost scope.
    pub fn insert(&mut self, key: String, value: Data)
        requires
            old(self).wf(),
        ensures
            final(self).wf(),
            final(self)@ =~= env_define(old(self)@, key@, value@),
    {
        let ghost key_v = key@;
        let ghost value_v = value@;
        match self.frames.pop() {
            Some(mut frame) => {
                let ghost frame0 = frame@;
                frame.push((key, value));
                proof {
                    assert(frame@.drop_last() =~= frame0);
                    assert(frame@.last() == (key, value));
                }
                self.frames.push(frame);
                proof {
                    assert(final(self)@ =~= env_define(old(self)@, key_v, value_v));
                }
            },
            None => {
                proof {
                    assert(false);
                }
            },
        }
    }

    /// Innermost-to-outermost lookup.
    pub fn get(&self, key: &String) -> (r: Option<&Data>)
        ensures
            match r {
                Some(d) => env_lookup(self@, key@) == Some(d@),
                None => env_lookup(self@, key@) is None,
            },
    {
        proof {
            assert(self.frames@.take(self.frames@.len() as int) =~= self.frames@);
        }
        env_get_upto(&self.frames, key, self.frames.len())
    }
}

} // verus!
