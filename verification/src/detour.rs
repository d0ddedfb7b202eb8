//! The detour on `Player.ItemCheck`, through which the thread of the game comes by.

use vstd::prelude::*;

use crate::text;

verus! {

/// Where the detour stands. Addresses are 0 where there is none.
#[derive(Debug, Clone, Copy, PartialEq, Eq, Structural)]
pub struct Detour {
    /// The way to what the method did before.
    pub trampoline: usize,
    /// The method.
    pub target: usize,
    pub installed: bool,
    /// While it is false the thread of the game just passes through.
    pub active: bool,
}

/// What to do next to set the detour.
#[derive(Debug, Clone, Copy, PartialEq, Eq, Structural)]
pub enum DetourStage {
    /// Prepare it on this address.
    Create { address: usize },
    /// Switch it on.
    Enable { address: usize },
    /// It is set, or it is not.
    Over(bool),
}

impl Detour {
    /// No detour yet.
    pub fn new() -> (r: Detour)
        ensures
            r == (Detour { trampoline: 0, target: 0, installed: false, active: false }),
    {
        Detour { trampoline: 0, target: 0, installed: false, active: false }
    }

    /// The detour after it was tried to prepare it.
    pub open spec fn created(self, address: usize, original: Option<usize>) -> (
        Detour,
        DetourStage,
    ) {
        match original {
            Some(trampoline) => (
                Detour { trampoline, ..self },
                DetourStage::Enable { address },
            ),
            None => (Detour { installed: false, ..self }, DetourStage::Over(false)),
        }
    }

    /// The detour after it was tried to switch it on.
    pub open spec fn enabled(self, address: usize, done: bool) -> (Detour, DetourStage) {
        if done {
            (Detour { target: address, active: true, ..self }, DetourStage::Over(true))
        } else {
            (Detour { installed: false, ..self }, DetourStage::Over(false))
        }
    }
}

impl Detour {
    /// The detour when it is begun to set it, and what comes next.
    pub open spec fn begun(self, address: usize) -> (Detour, DetourStage) {
        (
            Detour { installed: true, ..self },
            if self.installed {
                DetourStage::Over(true)
            } else {
                DetourStage::Create { address }
            },
        )
    }

    /// Off which method a detour has to be taken that is given up.
    pub open spec fn taken_off(self) -> Option<usize> {
        if self.installed && self.target != 0 {
            Some(self.target)
        } else {
            None
        }
    }
}

/// Begins to set the detour. One that is set already stays.
pub fn install(detour: &mut Detour, address: usize) -> (r: DetourStage)
    ensures
        *final(detour) == (Detour { installed: true, ..*old(detour) }),
        r == if old(detour).installed {
            DetourStage::Over(true)
        } else {
            DetourStage::Create { address }
        },
        (*final(detour), r) == old(detour).begun(address),
{
    if detour.installed {
        return DetourStage::Over(true);
    }
    detour.installed = true;
    DetourStage::Create { address }
}

/// The detour was prepared, with the way to what the method did before, or it was not.
pub fn on_created(detour: &mut Detour, address: usize, original: Option<usize>) -> (r: DetourStage)
    ensures
        (*final(detour), r) == old(detour).created(address, original),
{
    match original {
        Some(trampoline) => {
            detour.trampoline = trampoline;
            DetourStage::Enable { address }
        },
        None => {
            detour.installed = false;
            DetourStage::Over(false)
        },
    }
}

/// The detour was switched on, or it was not.
pub fn on_enabled(detour: &mut Detour, address: usize, done: bool) -> (r: DetourStage)
    ensures
        (*final(detour), r) == old(detour).enabled(address, done),
{
    if !done {
        detour.installed = false;
        return DetourStage::Over(false);
    }
    detour.target = address;
    detour.active = true;
    DetourStage::Over(true)
}

/// The detour that is given up.
pub open spec fn gone(d: Detour) -> Detour {
    if d.installed {
        Detour { installed: false, active: false, target: 0, ..d }
    } else {
        d
    }
}

/// Gives the detour up, and says off which method it has to be taken.
pub fn uninstall(detour: &mut Detour) -> (r: Option<usize>)
    ensures
        *final(detour) == gone(*old(detour)),
        r == if old(detour).installed && old(detour).target != 0 {
            Some(old(detour).target)
        } else {
            None
        },
        r == old(detour).taken_off(),
{
    if !detour.installed {
        return None;
    }
    detour.installed = false;
    detour.active = false;
    let target: usize = detour.target;
    detour.target = 0;
    if target == 0 {
        None
    } else {
        Some(target)
    }
}

/// Whether the detour works. While it does not, nobody would carry requests out.
pub fn is_active(detour: &Detour) -> (r: bool)
    ensures
        r == detour.active,
{
    detour.active
}

/// Bytes in two hexadecimal digits each, with a blank behind each.
pub open spec fn dump(bytes: Seq<u8>) -> Seq<char>
    decreases bytes.len(),
{
    if bytes.len() == 0 {
        Seq::empty()
    } else {
        dump(bytes.drop_last()) + crate::text::numeral(bytes.last() as nat, 16, 2) + " "@
    }
}

/// Writes the first bytes at an address.
pub fn peek(address: usize, bytes: &[u8]) -> (r: String)
    ensures
        r@ == if address == 0 {
            "нет адреса"@
        } else {
            dump(bytes@)
        },
{
    if address == 0 {
        return text::owned("нет адреса");
    }
    let mut out = String::new();
    assert(out@ =~= dump(bytes@.take(0)));
    let mut i: usize = 0;
    while i < bytes.len()
        invariant
            i <= bytes@.len(),
            out@ == dump(bytes@.take(i as int)),
        decreases bytes@.len() - i,
    {
        assert(bytes@.take(i + 1).drop_last() =~= bytes@.take(i as int));
        text::push_numeral(&mut out, bytes[i] as u64, 16, 2);
        out.append(" ");
        i = i + 1;
    }
    assert(bytes@.take(bytes@.len() as int) =~= bytes@);
    out
}

// ---------------------------------------------------------------------------
// Laws
// ---------------------------------------------------------------------------

/// A detour works only where it is set.
pub open spec fn sound(d: Detour) -> bool {
    d.active ==> d.installed
}

/// No step leads to a detour that works without being set; one that is given up works
/// no more.
pub proof fn law_active_means_installed(
    d: Detour,
    address: usize,
    original: Option<usize>,
    done: bool,
)
    requires
        sound(d),
    ensures
        sound(Detour { installed: true, ..d }),
        !d.active ==> sound(d.created(address, original).0),
        d.installed && !d.active ==> sound(d.enabled(address, done).0),
        sound(gone(d)),
        !gone(d).active,
{
}

/// Something that is done with the detour as a whole.
pub enum Deed {
    /// It is set on an address: what preparing it brought, and whether it could be
    /// switched on.
    Setting { address: usize, original: Option<usize>, done: bool },
    Removal,
}

impl Deed {
    /// Whether it is a setting that succeeds.
    pub open spec fn succeeds(self) -> bool {
        self matches Deed::Setting { address, original, done } && original is Some && done
    }
}

/// The detour after a deed. One that is set already stays as it is.
pub open spec fn after(d: Detour, deed: Deed) -> Detour {
    match deed {
        Deed::Setting { address, original, done } => if d.installed {
            d
        } else {
            let created = (Detour { installed: true, ..d }).created(address, original);
            match created.1 {
                DetourStage::Enable { address } => created.0.enabled(address, done).0,
                _ => created.0,
            }
        },
        Deed::Removal => gone(d),
    }
}

/// The detour after deeds, in their order.
pub open spec fn after_all(d: Detour, deeds: Seq<Deed>) -> Detour
    decreases deeds.len(),
{
    if deeds.len() == 0 {
        d
    } else {
        after(after_all(d, deeds.drop_last()), deeds.last())
    }
}

/// Whether some setting succeeded and no removal came after it.
pub open spec fn last_set(deeds: Seq<Deed>) -> bool {
    exists|i: int|
        0 <= i < deeds.len() && (#[trigger] deeds[i]).succeeds() && forall|j: int|
            i < j < deeds.len() ==> !(#[trigger] deeds[j] is Removal)
}

/// Whatever was done with a detour, it works exactly where some setting succeeded and no
/// removal came after it; and exactly then it counts as set.
pub proof fn law_detour_works_while_it_is_set(d: Detour, deeds: Seq<Deed>)
    requires
        !d.installed,
        !d.active,
    ensures
        after_all(d, deeds).active == last_set(deeds),
        after_all(d, deeds).installed == last_set(deeds),
    decreases deeds.len(),
{
    if deeds.len() > 0 {
        let front = deeds.drop_last();
        let last = deeds.len() - 1;
        law_detour_works_while_it_is_set(d, front);
        if deeds[last].succeeds() {
            assert(last_set(deeds));
        } else if deeds[last] is Removal {
            assert(!last_set(deeds));
        } else {
            if last_set(front) {
                let i = choose|i: int|
                    0 <= i < front.len() && (#[trigger] front[i]).succeeds() && forall|j: int|
                        i < j < front.len() ==> !(#[trigger] front[j] is Removal);
                assert(deeds[i].succeeds());
                assert forall|j: int| i < j < deeds.len() implies !(#[trigger] deeds[j] is Removal) by {
                    if j < last {
                        assert(deeds[j] == front[j]);
                    }
                }
            }
            if last_set(deeds) {
                let i = choose|i: int|
                    0 <= i < deeds.len() && (#[trigger] deeds[i]).succeeds() && forall|j: int|
                        i < j < deeds.len() ==> !(#[trigger] deeds[j] is Removal);
                assert(front[i].succeeds());
                assert forall|j: int| i < j < front.len() implies !(#[trigger] front[j] is Removal) by {
                    assert(deeds[j] == front[j]);
                }
            }
        }
    }
}

} // verus!
