//! Button clicks: the player buttons and the table that routes a click by
//! the button's identifier.

use vstd::prelude::*;
use vstd::string::*;

use crate::response::{ActionRow, Button, ButtonStyle, Component};
use crate::text::str_eq;

verus! {

/// A button with an identifier and a label.
pub fn button(label: &str, custom_id: &str, style: ButtonStyle) -> (r: Button)
    ensures
        r.label matches Some(l) && l@ == label@,
        r.custom_id matches Some(c) && c@ == custom_id@,
        r.style == style,
        r.url is None,
        !r.disabled,
{
    Button {
        custom_id: Some(String::from_str(custom_id)),
        label: Some(String::from_str(label)),
        style,
        url: None,
        disabled: false,
    }
}

/// Whether `b` has exactly this label, identifier and style.
pub open spec fn is_button(b: Button, label: Seq<char>, custom_id: Seq<char>, style: ButtonStyle) -> bool {
    &&& b.label matches Some(l) && l@ == label
    &&& b.custom_id matches Some(c) && c@ == custom_id
    &&& b.style == style
    &&& b.url is None
    &&& !b.disabled
}

/// The player buttons: pause (or resume, when `paused`), lyrics, skip.
pub fn action_menu(paused: bool) -> (r: Component)
    ensures
        r matches Component::ActionRow(row) && row.components@.len() == 3 && is_button(
            row.components@[0],
            if paused {
                "▶\u{fe0f} Resume"@
            } else {
                "⏸\u{fe0f} Pause"@
            },
            "pause"@,
            ButtonStyle::Secondary,
        ) && is_button(row.components@[1], "🎤 Lyrics"@, "lyrics"@, ButtonStyle::Secondary)
            && is_button(row.components@[2], "⏩ Skip"@, "skip"@, ButtonStyle::Danger),
{
    let first = if paused {
        button("▶\u{fe0f} Resume", "pause", ButtonStyle::Secondary)
    } else {
        button("⏸\u{fe0f} Pause", "pause", ButtonStyle::Secondary)
    };
    let mut components = Vec::new();
    components.push(first);
    components.push(button("🎤 Lyrics", "lyrics", ButtonStyle::Secondary));
    components.push(button("⏩ Skip", "skip", ButtonStyle::Danger));
    Component::ActionRow(ActionRow { components })
}

/// Routes a button click to the handler `H` registered for the button's
/// identifier; a later registration for an identifier replaces the earlier.
pub struct ComponentRegistry<H> {
    handlers: Vec<(String, H)>,
}

impl<H> View for ComponentRegistry<H> {
    type V = Map<Seq<char>, H>;

    /// The handler of each identifier.
    closed spec fn view(&self) -> Map<Seq<char>, H> {
        Map::new(
            |id: Seq<char>| exists|i: int| 0 <= i < self.handlers@.len() && #[trigger] self.handlers@[i].0@ == id,
            |id: Seq<char>| {
                let i = choose|i: int| 0 <= i < self.handlers@.len() && #[trigger] self.handlers@[i].0@ == id;
                self.handlers@[i].1
            },
        )
    }
}

impl<H> ComponentRegistry<H> {
    /// Identifiers are unique among the entries.
    pub closed spec fn wf(&self) -> bool {
        forall|i: int, j: int|
            0 <= i < self.handlers@.len() && 0 <= j < self.handlers@.len() && i != j ==> (
            #[trigger] self.handlers@[i]).0@ != (#[trigger] self.handlers@[j]).0@
    }

    pub fn new() -> (r: Self)
        ensures
            r.wf(),
            r@ == Map::<Seq<char>, H>::empty(),
    {
        let r = ComponentRegistry { handlers: Vec::new() };
        assert(r@ =~= Map::<Seq<char>, H>::empty());
        r
    }

    /// Index of the entry for `id`, if any.
    fn position(&self, id: &str) -> (r: Option<usize>)
        requires
            self.wf(),
        ensures
            r is None ==> !self@.contains_key(id@),
            r matches Some(i) ==> i < self.handlers@.len() && self.handlers@[i as int].0@ == id@,
    {
        let mut i: usize = 0;
        while i < self.handlers.len()
            invariant
                i <= self.handlers@.len(),
                forall|j: int| 0 <= j < i ==> (#[trigger] self.handlers@[j]).0@ != id@,
            decreases self.handlers@.len() - i,
        {
            if str_eq(self.handlers[i].0.as_str(), id) {
                return Some(i);
            }
            i = i + 1;
        }
        None
    }

    /// Registers `handler` for clicks on buttons with identifier `custom_id`.
    pub fn register(&mut self, custom_id: &str, handler: H)
        requires
            old(self).wf(),
        ensures
            final(self).wf(),
            final(self)@ == old(self)@.insert(custom_id@, handler),
    {
        match self.position(custom_id) {
            Some(i) => {
                let ghost old_h = self.handlers@;
                self.handlers.set(i, (String::from_str(custom_id), handler));
                proof {
                    let h = self.handlers@;
                    assert forall|a: int, b: int|
                        0 <= a < h.len() && 0 <= b < h.len() && a != b implies (#[trigger] h[a]).0@
                        != (#[trigger] h[b]).0@ by {
                        if a != i && b != i {
                            assert(h[a] == old_h[a] && h[b] == old_h[b]);
                        } else if a == i {
                            assert(h[b] == old_h[b]);
                            assert(old_h[i as int].0@ != old_h[b].0@);
                        } else {
                            assert(h[a] == old_h[a]);
                            assert(old_h[a].0@ != old_h[i as int].0@);
                        }
                    }
                    assert forall|id: Seq<char>| #[trigger] self@.contains_key(id)
                        == old(self)@.insert(custom_id@, handler).contains_key(id) by {
                        if id != custom_id@ && old(self)@.contains_key(id) {
                            let k = choose|k: int| 0 <= k < old_h.len() && #[trigger] old_h[k].0@ == id;
                            assert(h[k] == old_h[k]);
                        }
                        if id != custom_id@ && self@.contains_key(id) {
                            let k = choose|k: int| 0 <= k < h.len() && #[trigger] h[k].0@ == id;
                            assert(h[k] == old_h[k]);
                        }
                        if id == custom_id@ {
                            assert(h[i as int].0@ == id);
                        }
                    }
                    assert forall|id: Seq<char>| #[trigger] self@.contains_key(id) implies self@[id]
                        == old(self)@.insert(custom_id@, handler)[id] by {
                        let k = choose|k: int| 0 <= k < h.len() && #[trigger] h[k].0@ == id;
                        if id == custom_id@ {
                            assert(k == i);
                        } else {
                            assert(h[k] == old_h[k]);
                            let k2 = choose|k2: int| 0 <= k2 < old_h.len() && #[trigger] old_h[k2].0@ == id;
                            assert(k2 == k);
                        }
                    }
                    assert(self@ =~= old(self)@.insert(custom_id@, handler));
                }
            },
            None => {
                let ghost old_h = self.handlers@;
                self.handlers.push((String::from_str(custom_id), handler));
                proof {
                    let h = self.handlers@;
                    let n = old_h.len();
                    assert forall|a: int, b: int|
                        0 <= a < h.len() && 0 <= b < h.len() && a != b implies (#[trigger] h[a]).0@
                        != (#[trigger] h[b]).0@ by {
                        if a < n && b < n {
                            assert(h[a] == old_h[a] && h[b] == old_h[b]);
                        } else if a == n {
                            assert(h[b] == old_h[b]);
                            assert(old_h[b].0@ != custom_id@);
                        } else {
                            assert(h[a] == old_h[a]);
                            assert(old_h[a].0@ != custom_id@);
                        }
                    }
                    assert forall|id: Seq<char>| #[trigger] self@.contains_key(id)
                        == old(self)@.insert(custom_id@, handler).contains_key(id) by {
                        if old(self)@.contains_key(id) {
                            let k = choose|k: int| 0 <= k < old_h.len() && #[trigger] old_h[k].0@ == id;
                            assert(h[k] == old_h[k]);
                        }
                        if self@.contains_key(id) && id != custom_id@ {
                            let k = choose|k: int| 0 <= k < h.len() && #[trigger] h[k].0@ == id;
                            assert(h[k] == old_h[k]);
                        }
                        if id == custom_id@ {
                            assert(h[n as int].0@ == id);
                        }
                    }
                    assert forall|id: Seq<char>| #[trigger] self@.contains_key(id) implies self@[id]
                        == old(self)@.insert(custom_id@, handler)[id] by {
                        let k = choose|k: int| 0 <= k < h.len() && #[trigger] h[k].0@ == id;
                        if id == custom_id@ {
                            assert(k == n);
                        } else {
                            assert(h[k] == old_h[k]);
                            let k2 = choose|k2: int| 0 <= k2 < old_h.len() && #[trigger] old_h[k2].0@ == id;
                            assert(k2 == k);
                        }
                    }
                    assert(self@ =~= old(self)@.insert(custom_id@, handler));
                }
            },
        }
    }

    /// The handler for clicks on buttons with identifier `custom_id`.
    pub fn handler(&self, custom_id: &str) -> (r: Option<&H>)
        requires
            self.wf(),
        ensures
            match r {
                None => !self@.contains_key(custom_id@),
                Some(h) => self@.contains_key(custom_id@) && *h == self@[custom_id@],
            },
    {
        match self.position(custom_id) {
            None => None,
            Some(i) => {
                proof {
                    let h = self.handlers@;
                    assert(self@.contains_key(custom_id@));
                    let k = choose|k: int| 0 <= k < h.len() && #[trigger] h[k].0@ == custom_id@;
                    assert(k == i);
                }
                Some(&self.handlers[i].1)
            },
        }
    }
}

/// Registers the player buttons' handlers under their identifiers.
pub fn register_buttons<H>(reg: &mut ComponentRegistry<H>, skip: H, pause: H, lyrics: H)
    requires
        old(reg).wf(),
    ensures
        final(reg).wf(),
        final(reg)@ == old(reg)@.insert("skip"@, skip).insert("pause"@, pause).insert(
            "lyrics"@,
            lyrics,
        ),
{
    reg.register("skip", skip);
    reg.register("pause", pause);
    reg.register("lyrics", lyrics);
}

} // verus!
