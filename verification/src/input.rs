//! Input state: which keys and mouse buttons are down, and which of them
//! became pressed since the last frame.
//!
//! A key (or button) enters in the *fresh* state on its press event and is
//! demoted to merely *held* when the frame ends, so edge-triggered actions
//! (spawning, picking) fire once per press while continuous ones (camera
//! movement) see the key for as long as it is down. Key and button codes are
//! plain integers; the windowing layer maps its own event types onto them.

use vstd::prelude::*;

verus! {

/// A sequence with no repeated elements (used as a set of codes).
pub open spec fn unique<T>(s: Seq<T>) -> bool {
    forall|i: int, j: int| 0 <= i < j < s.len() ==> s[i] != s[j]
}

/// Add `x` to the code set if it is not yet there.
fn set_insert(v: &mut Vec<u32>, x: u32)
    requires
        unique(old(v)@),
    ensures
        unique(final(v)@),
        forall|c: u32| final(v)@.contains(c) <==> old(v)@.contains(c) || c == x,
{
    if !set_contains(v, x) {
        v.push(x);
        proof {
            assert forall|c: u32| final(v)@.contains(c) implies old(v)@.contains(c) || c == x by {
                let n = choose|n: int| 0 <= n < v@.len() && v@[n] == c;
                if n < v@.len() - 1 {
                    assert(old(v)@[n] == c);
                }
            }
            assert forall|c: u32| old(v)@.contains(c) implies final(v)@.contains(c) by {
                let n = choose|n: int| 0 <= n < old(v)@.len() && old(v)@[n] == c;
                assert(v@[n] == c);
            }
            assert(v@[v@.len() - 1] == x);
            assert forall|i: int, j: int| 0 <= i < j < v@.len() implies v@[i] != v@[j] by {
                if j == v@.len() - 1 {
                    assert(old(v)@[i] == v@[i]);
                    assert(!old(v)@.contains(x));
                }
            }
        }
    }
}

/// Remove `x` from the code set if it is there.
fn set_remove(v: &mut Vec<u32>, x: u32)
    requires
        unique(old(v)@),
    ensures
        unique(final(v)@),
        forall|c: u32| final(v)@.contains(c) <==> old(v)@.contains(c) && c != x,
{
    let n = v.len();
    let mut k: usize = 0;
    while k < n
        invariant
            *v == *old(v),
            unique(v@),
            n == v@.len(),
            k <= n,
            forall|j: int| 0 <= j < k ==> v@[j] != x,
        decreases n - k,
    {
        if v[k] == x {
            proof {
                old(v)@.remove_ensures(k as int);
            }
            v.remove(k);
            proof {
                let pre = old(v)@;
                let post = v@;
                assert(post == pre.remove(k as int));
                assert(post.len() == pre.len() - 1);
                assert(forall|m: int| 0 <= m < k ==> #[trigger] post[m] == pre[m]);
                assert(forall|m: int| k <= m < post.len() ==> #[trigger] post[m] == pre[m + 1]);
                assert(pre[k as int] == x);
                assert(forall|m: int| 0 <= m < k ==> #[trigger] pre[m] != x);
                assert forall|c: u32| post.contains(c) implies pre.contains(c) && c != x by {
                    let m = choose|m: int| 0 <= m < post.len() && post[m] == c;
                    if m < k {
                        assert(pre[m] == c);
                    } else {
                        assert(pre[m + 1] == c);
                    }
                }
                assert forall|c: u32| pre.contains(c) && c != x implies post.contains(c) by {
                    let m = choose|m: int| 0 <= m < pre.len() && pre[m] == c;
                    if m < k {
                        assert(post[m] == c);
                    } else {
                        assert(m != k);
                        assert(post[m - 1] == c);
                    }
                }
                assert forall|i: int, j: int| 0 <= i < j < post.len() implies post[i] != post[j] by {
                    if j < k {
                    } else if i < k {
                        assert(post[i] == pre[i] && post[j] == pre[j + 1]);
                    } else {
                        assert(post[i] == pre[i + 1] && post[j] == pre[j + 1]);
                    }
                }
            }
            return ;
        }
        k += 1;
    }
    proof {
        assert forall|c: u32| v@.contains(c) implies c != x by {
            let m = choose|m: int| 0 <= m < v@.len() && v@[m] == c;
        }
    }
}

/// Whether the code set holds `x`.
fn set_contains(v: &Vec<u32>, x: u32) -> (r: bool)
    ensures
        r == v@.contains(x),
{
    let n = v.len();
    let mut k: usize = 0;
    while k < n
        invariant
            n == v@.len(),
            k <= n,
            forall|j: int| 0 <= j < k ==> v@[j] != x,
        decreases n - k,
    {
        if v[k] == x {
            return true;
        }
        k += 1;
    }
    proof {
        assert forall|c: u32| v@.contains(c) implies c != x by {
            let m = choose|m: int| 0 <= m < v@.len() && v@[m] == c;
        }
        assert(!v@.contains(x));
    }
    false
}

/// Per-frame input state.
pub struct Input {
    down_keys: Vec<u32>,
    fresh_keys: Vec<u32>,
    down_buttons: Vec<u32>,
    fresh_buttons: Vec<u32>,
    cursor: (u32, u32),
}

impl Input {
    /// Keys currently held down.
    pub closed spec fn down_keys(&self) -> Seq<u32> {
        self.down_keys@
    }

    /// Keys pressed since the last frame ended.
    pub closed spec fn fresh_keys(&self) -> Seq<u32> {
        self.fresh_keys@
    }

    /// Mouse buttons currently held down.
    pub closed spec fn down_buttons(&self) -> Seq<u32> {
        self.down_buttons@
    }

    /// Mouse buttons pressed since the last frame ended.
    pub closed spec fn fresh_buttons(&self) -> Seq<u32> {
        self.fresh_buttons@
    }

    /// Last reported cursor position, in window coordinates (top-left
    /// origin).
    pub closed spec fn spec_cursor(&self) -> (u32, u32) {
        self.cursor
    }

    /// The code sets hold no duplicates.
    pub open spec fn wf(&self) -> bool {
        &&& unique(self.down_keys())
        &&& unique(self.fresh_keys())
        &&& unique(self.down_buttons())
        &&& unique(self.fresh_buttons())
    }

    /// No keys or buttons down, cursor at the origin.
    pub fn new() -> (inp: Self)
        ensures
            inp.wf(),
            inp.down_keys().len() == 0,
            inp.fresh_keys().len() == 0,
            inp.down_buttons().len() == 0,
            inp.fresh_buttons().len() == 0,
            inp.spec_cursor() == (0u32, 0u32),
    {
        Self {
            down_keys: Vec::new(),
            fresh_keys: Vec::new(),
            down_buttons: Vec::new(),
            fresh_buttons: Vec::new(),
            cursor: (0, 0),
        }
    }

    /// Record a key event. A press marks the key down and fresh (a repeated
    /// press event refreshes it); a release removes it entirely.
    pub fn handle_keyboard_input(&mut self, keycode: u32, pressed: bool)
        requires
            old(self).wf(),
        ensures
            final(self).wf(),
            final(self).down_buttons() == old(self).down_buttons(),
            final(self).fresh_buttons() == old(self).fresh_buttons(),
            final(self).spec_cursor() == old(self).spec_cursor(),
            forall|c: u32|
                final(self).down_keys().contains(c) <==> (if pressed {
                    old(self).down_keys().contains(c) || c == keycode
                } else {
                    old(self).down_keys().contains(c) && c != keycode
                }),
            forall|c: u32|
                final(self).fresh_keys().contains(c) <==> (if pressed {
                    old(self).fresh_keys().contains(c) || c == keycode
                } else {
                    old(self).fresh_keys().contains(c) && c != keycode
                }),
    {
        if pressed {
            set_insert(&mut self.down_keys, keycode);
            set_insert(&mut self.fresh_keys, keycode);
        } else {
            set_remove(&mut self.down_keys, keycode);
            set_remove(&mut self.fresh_keys, keycode);
        }
    }

    /// Record a mouse button event, exactly as key events are recorded.
    pub fn handle_mouse_button_input(&mut self, button: u32, pressed: bool)
        requires
            old(self).wf(),
        ensures
            final(self).wf(),
            final(self).down_keys() == old(self).down_keys(),
            final(self).fresh_keys() == old(self).fresh_keys(),
            final(self).spec_cursor() == old(self).spec_cursor(),
            forall|c: u32|
                final(self).down_buttons().contains(c) <==> (if pressed {
                    old(self).down_buttons().contains(c) || c == button
                } else {
                    old(self).down_buttons().contains(c) && c != button
                }),
            forall|c: u32|
                final(self).fresh_buttons().contains(c) <==> (if pressed {
                    old(self).fresh_buttons().contains(c) || c == button
                } else {
                    old(self).fresh_buttons().contains(c) && c != button
                }),
    {
        if pressed {
            set_insert(&mut self.down_buttons, button);
            set_insert(&mut self.fresh_buttons, button);
        } else {
            set_remove(&mut self.down_buttons, button);
            set_remove(&mut self.fresh_buttons, button);
        }
    }

    /// Record the cursor position.
    pub fn set_cursor(&mut self, x: u32, y: u32)
        requires
            old(self).wf(),
        ensures
            final(self).wf(),
            final(self).spec_cursor() == (x, y),
            final(self).down_keys() == old(self).down_keys(),
            final(self).fresh_keys() == old(self).fresh_keys(),
            final(self).down_buttons() == old(self).down_buttons(),
            final(self).fresh_buttons() == old(self).fresh_buttons(),
    {
        self.cursor = (x, y);
    }

    /// Last reported cursor position.
    pub fn cursor(&self) -> (r: (u32, u32))
        ensures
            r == self.spec_cursor(),
    {
        self.cursor
    }

    /// End-of-frame demotion: everything still down is now merely held, so
    /// edge-triggered queries stop firing for it.
    pub fn update_after_frame(&mut self)
        requires
            old(self).wf(),
        ensures
            final(self).wf(),
            final(self).down_keys() == old(self).down_keys(),
            final(self).down_buttons() == old(self).down_buttons(),
            final(self).spec_cursor() == old(self).spec_cursor(),
            final(self).fresh_keys().len() == 0,
            final(self).fresh_buttons().len() == 0,
    {
        self.fresh_keys.clear();
        self.fresh_buttons.clear();
    }

    /// Whether the key was pressed since the last frame (fires once per
    /// press).
    pub fn get_key_press(&self, keycode: u32) -> (r: bool)
        ensures
            r == self.fresh_keys().contains(keycode),
    {
        set_contains(&self.fresh_keys, keycode)
    }

    /// Whether the key is currently down (fires every frame it is held).
    pub fn get_key_press_continuous(&self, keycode: u32) -> (r: bool)
        ensures
            r == self.down_keys().contains(keycode),
    {
        set_contains(&self.down_keys, keycode)
    }

    /// Whether the button was pressed since the last frame.
    pub fn get_mouse_button_press(&self, button: u32) -> (r: bool)
        ensures
            r == self.fresh_buttons().contains(button),
    {
        set_contains(&self.fresh_buttons, button)
    }

    /// Whether the button is currently down.
    pub fn get_mouse_button_press_continuous(&self, button: u32) -> (r: bool)
        ensures
            r == self.down_buttons().contains(button),
    {
        set_contains(&self.down_buttons, button)
    }
}

} // verus!
