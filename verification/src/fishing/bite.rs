//! What the automaton does about a bite, and what it tells the player.

use vstd::prelude::*;

use super::{since, Fishing};
use crate::input::{self, MailView, Mailbox};
use crate::overlay::state::{SharedView, Store};
use crate::text;

verus! {

/// What became of a bite.
#[derive(Debug, Clone, Copy, PartialEq, Eq, Structural)]
pub enum Bite {
    /// It was seen before.
    Known,
    /// The filter does not let it through; no bait is spent.
    Skipped,
    /// Fishing is switched off.
    Off,
    /// A press is on its way, or the pause is not over.
    Waiting,
    /// Nobody would apply the press.
    Unhooked,
    Hooked,
}

/// Something to tell the player.
#[derive(Debug)]
pub enum Announcement {
    /// An enemy bit.
    Spawn { name: String, hooked: bool },
    /// The filter left an item.
    Skipped { item: i32, name: String, whitelist: bool },
    /// A quest fish was caught.
    Quest { item: i32, name: String },
    /// A potion was drunk.
    Potion { item: i32, name: String },
}

/// The model of [`Announcement`].
pub enum AnnouncementView {
    Spawn { name: Seq<char>, hooked: bool },
    Skipped { item: i32, name: Seq<char>, whitelist: bool },
    Quest { item: i32, name: Seq<char> },
    Potion { item: i32, name: Seq<char> },
}

impl View for Announcement {
    type V = AnnouncementView;

    open spec fn view(&self) -> AnnouncementView {
        match *self {
            Announcement::Spawn { name, hooked } => AnnouncementView::Spawn { name: name@, hooked },
            Announcement::Skipped { item, name, whitelist } => AnnouncementView::Skipped {
                item,
                name: name@,
                whitelist,
            },
            Announcement::Quest { item, name } => AnnouncementView::Quest { item, name: name@ },
            Announcement::Potion { item, name } => AnnouncementView::Potion { item, name: name@ },
        }
    }
}

/// Whether the filter lets a catch through; it does where the state cannot be reached.
pub open spec fn passes(store: Option<SharedView>, rolled: i32) -> bool {
    match store {
        Some(s) => s.pulls(rolled),
        None => true,
    }
}

/// A number that stands for a thing without a name.
pub open spec fn nameless(id: int) -> Seq<char> {
    seq!['#'] + text::signed(id)
}

fn number_sign(id: i64) -> (r: String)
    ensures
        r@ == nameless(id as int),
{
    proof {
        reveal_strlit("#");
    }
    let mut out = text::owned("#");
    text::push_signed(&mut out, id);
    assert(out@ =~= nameless(id as int));
    out
}

/// The name of an item as the game shows it, or its number.
pub open spec fn name_of(store: Option<SharedView>, item: i32) -> Seq<char> {
    match store {
        Some(s) => match s.facts_of(item) {
            Some(f) => f.display,
            None => nameless(item as int),
        },
        None => nameless(item as int),
    }
}

/// Whether the angler asks for an item.
pub open spec fn is_quest(store: Option<SharedView>, item: i32) -> bool {
    match store {
        Some(s) => match s.facts_of(item) {
            Some(f) => f.quest,
            None => false,
        },
        None => false,
    }
}

/// Whether the list is white; it is black where the state cannot be reached.
pub open spec fn is_whitelist(store: Option<SharedView>) -> bool {
    match store {
        Some(s) => s.whitelist_mode,
        None => false,
    }
}

/// What there is to tell of a bite. Of an ordinary catch only that it was skipped or
/// that the angler asks for it: the rest the player sees. A negative catch is an
/// enemy; `enemy` is its name where the game has one.
pub open spec fn told(
    store: Option<SharedView>,
    rolled: i32,
    hooked: bool,
    enemy: Option<Seq<char>>,
) -> Option<AnnouncementView> {
    if rolled < 0 {
        Some(
            AnnouncementView::Spawn {
                name: match enemy {
                    Some(name) => name,
                    None => nameless(-rolled),
                },
                hooked,
            },
        )
    } else if !hooked {
        Some(
            AnnouncementView::Skipped {
                item: rolled,
                name: name_of(store, rolled),
                whitelist: is_whitelist(store),
            },
        )
    } else if is_quest(store, rolled) {
        Some(AnnouncementView::Quest { item: rolled, name: name_of(store, rolled) })
    } else {
        None
    }
}

/// The name of an item as the game shows it, or its number.
pub fn display_name(store: &mut Store, item: i32) -> (r: String)
    ensures
        r@ == name_of(old(store)@, item),
        final(store)@ == old(store)@,
{
    match store.open() {
        Some(s) => match s.facts(item) {
            Some(f) => f.display.clone(),
            None => number_sign(item as i64),
        },
        None => number_sign(item as i64),
    }
}

/// What there is to tell the player of a bite.
pub fn announce(store: &mut Store, rolled: i32, hooked: bool, enemy: Option<String>) -> (r: Option<
    Announcement,
>)
    requires
        rolled > i32::MIN,
    ensures
        final(store)@ == old(store)@,
        ({
            let name = match enemy {
                Some(s) => Some(s@),
                None => None,
            };
            match r {
                Some(a) => told(old(store)@, rolled, hooked, name) == Some(a@),
                None => told(old(store)@, rolled, hooked, name) is None,
            }
        }),
{
    if rolled < 0 {
        let name = match enemy {
            Some(name) => name,
            None => number_sign(-(rolled as i64)),
        };
        return Some(Announcement::Spawn { name, hooked });
    }
    let name = display_name(store, rolled);
    let (quest, whitelist) = match store.open() {
        Some(s) => (
            match s.facts(rolled) {
                Some(f) => f.quest,
                None => false,
            },
            s.whitelist_mode,
        ),
        None => (false, false),
    };
    if !hooked {
        Some(Announcement::Skipped { item: rolled, name, whitelist })
    } else if quest {
        Some(Announcement::Quest { item: rolled, name })
    } else {
        None
    }
}

impl Fishing {
    /// What becomes of a bite.
    pub open spec fn bite(
        self,
        store: Option<SharedView>,
        mail: MailView,
        detour: bool,
        rolled: i32,
        now: u64,
    ) -> Bite {
        if rolled == self.last_bite {
            Bite::Known
        } else if !passes(store, rolled) {
            Bite::Skipped
        } else if !super::switched_on(store) {
            Bite::Off
        } else if mail.busy() || now < self.next_action {
            Bite::Waiting
        } else if !detour {
            Bite::Unhooked
        } else {
            Bite::Hooked
        }
    }

    /// How long the bite was waited for, where that was measured.
    pub open spec fn wait(self, rolled: i32, now: u64) -> Option<u64> {
        match self.cast_at {
            Some(at) if rolled != self.last_bite => Some(super::elapsed(at, now) as u64),
            _ => None,
        }
    }

    /// The automaton after a bite of which `what` became. The wait is measured on the
    /// first sight of a bite, whatever becomes of it.
    pub open spec fn bitten(self, what: Bite, rolled: i32, now: u64) -> Fishing {
        if what is Known {
            self
        } else {
            let seen = Fishing {
                last_bite: rolled,
                cast_at: None,
                bite_count: if self.cast_at is Some {
                    (self.bite_count + 1) as u32
                } else {
                    self.bite_count
                },
                ..self
            };
            match what {
                Bite::Skipped => Fishing { skips: (seen.skips + 1) as u32, ..seen },
                Bite::Unhooked => seen.clicked(false, now),
                Bite::Hooked => Fishing {
                    pulls: (seen.pulls + 1) as u32,
                    ..seen.clicked(true, now)
                },
                _ => seen,
            }
        }
    }

    /// Whether what a bite of which `what` becomes counts up can be counted.
    pub open spec fn bite_fits(self, what: Bite, rolled: i32) -> bool {
        &&& rolled != self.last_bite && self.cast_at is Some ==> self.bite_count < u32::MAX
        &&& what is Skipped ==> self.skips < u32::MAX
        &&& what is Hooked ==> self.pulls < u32::MAX
    }

    /// Whether what a bite of which `what` becomes counts up can be counted.
    pub fn can_count(&self, what: Bite, rolled: i32) -> (r: bool)
        ensures
            r == self.bite_fits(what, rolled),
    {
        if rolled != self.last_bite && self.cast_at.is_some() && self.bite_count == u32::MAX {
            return false;
        }
        match what {
            Bite::Skipped => self.skips < u32::MAX,
            Bite::Hooked => self.pulls < u32::MAX,
            _ => true,
        }
    }

    /// What becomes of a bite.
    pub fn judge_bite(
        &self,
        store: &mut Store,
        mail: &Mailbox,
        detour: bool,
        rolled: i32,
        now: u64,
    ) -> (r: Bite)
        ensures
            r == self.bite(old(store)@, mail@, detour, rolled, now),
            final(store)@ == old(store)@,
    {
        if rolled == self.last_bite {
            return Bite::Known;
        }
        let take: bool = match store.open() {
            Some(s) => s.should_pull(rolled),
            None => true,
        };
        if !take {
            Bite::Skipped
        } else if !super::enabled(store) {
            Bite::Off
        } else if input::busy(mail) || now < self.next_action {
            Bite::Waiting
        } else if !detour {
            Bite::Unhooked
        } else {
            Bite::Hooked
        }
    }

    /// Decides on a bite and asks for the press that pulls the bobber in. Says what
    /// became of the bite and how long it was waited for.
    pub fn on_bite(
        &mut self,
        store: &mut Store,
        mail: &mut Mailbox,
        detour: bool,
        rolled: i32,
        now: u64,
    ) -> (r: (Bite, Option<u64>))
        requires
            old(self).wf(),
            old(self).bite_fits(
                old(self).bite(old(store)@, old(mail)@, detour, rolled, now),
                rolled,
            ),
        ensures
            r.0 == old(self).bite(old(store)@, old(mail)@, detour, rolled, now),
            r.1 == old(self).wait(rolled, now),
            *final(self) == old(self).bitten(r.0, rolled, now),
            final(mail)@ == (if r.0 is Hooked {
                old(mail)@.clicking(None)
            } else {
                old(mail)@
            }),
            final(store)@ == old(store)@,
            final(self).wf(),
    {
        let what = self.judge_bite(store, mail, detour, rolled, now);
        if rolled == self.last_bite {
            return (what, None);
        }
        self.last_bite = rolled;
        let waited: Option<u64> = match self.cast_at {
            Some(at) => {
                self.bite_count = self.bite_count + 1;
                Some(since(at, now))
            },
            None => None,
        };
        self.cast_at = None;
        match what {
            Bite::Skipped => {
                self.skips = self.skips + 1;
            },
            Bite::Unhooked => {
                let _ = self.click(mail, false, None, now);
            },
            Bite::Hooked => {
                let _ = self.click(mail, true, None, now);
                self.pulls = self.pulls + 1;
            },
            _ => {},
        }
        (what, waited)
    }

    /// The automaton with a crate counted, where it is one.
    pub open spec fn landing(self, is_crate: bool) -> Fishing {
        Fishing {
            crates: if is_crate {
                (self.crates + 1) as u32
            } else {
                self.crates
            },
            ..self
        }
    }

    /// Counts a crate among the catch. What is a crate, the game knows.
    pub fn land(&mut self, is_crate: bool)
        requires
            old(self).wf(),
            is_crate ==> old(self).crates < u32::MAX,
        ensures
            *final(self) == (Fishing {
                crates: if is_crate {
                    (old(self).crates + 1) as u32
                } else {
                    old(self).crates
                },
                ..*old(self)
            }),
            *final(self) == old(self).landing(is_crate),
            final(self).wf(),
    {
        if is_crate {
            self.crates = self.crates + 1;
        }
    }
}

} // verus!
