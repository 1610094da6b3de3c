//! Elementary transforms and the ordered chain that an editor works on.
//!
//! A parameter is a real number held as the bit pattern of an IEEE 754
//! single: the verifier reasons about integers, and a bit pattern names its
//! number without loss. The embedding program turns a pattern into a number
//! where it builds a matrix from a transform.

use vstd::prelude::*;

verus! {

/// The bit pattern of the number zero.
pub const ZERO: u32 = 0;

/// The bit pattern of the number one.
pub const ONE: u32 = 0x3f80_0000;

/// Which elementary transform a slot holds.
#[derive(Clone, Copy, Debug, PartialEq, Eq, Structural)]
pub enum Kind {
    Identity,
    Rotate,
    Translate,
    Scale,
}

/// One elementary transform with its parameters.
#[derive(Clone, Copy, Debug, PartialEq, Eq, Structural)]
pub enum Transform {
    /// Leaves every point where it is.
    Identity,
    /// Turns about the origin of coordinates, by an angle in degrees.
    Rotate { angle_degrees: u32 },
    /// Shifts by `tx` along x and by `ty` along y.
    Translate { tx: u32, ty: u32 },
    /// Stretches by `sx` along x and by `sy` along y.
    Scale { sx: u32, sy: u32 },
}

/// Why an edit was not made.
#[derive(Clone, Copy, Debug, PartialEq, Eq, Structural)]
pub enum EditError {
    /// The chain has no slot of that index.
    NoSuchSlot,
    /// The slot holds a transform of another kind than the edit is for.
    OtherKind,
}

impl Transform {
    /// The kind of the transform.
    pub open spec fn spec_kind(self) -> Kind {
        match self {
            Transform::Identity => Kind::Identity,
            Transform::Rotate { .. } => Kind::Rotate,
            Transform::Translate { .. } => Kind::Translate,
            Transform::Scale { .. } => Kind::Scale,
        }
    }

    /// The transform that a slot holds when it is switched to `kind`: no
    /// turn, no shift, no stretch.
    pub open spec fn spec_initial(kind: Kind) -> Transform {
        match kind {
            Kind::Identity => Transform::Identity,
            Kind::Rotate => Transform::Rotate { angle_degrees: ZERO },
            Kind::Translate => Transform::Translate { tx: ZERO, ty: ZERO },
            Kind::Scale => Transform::Scale { sx: ONE, sy: ONE },
        }
    }

    /// The kind of the transform.
    #[verifier::when_used_as_spec(spec_kind)]
    pub fn kind(self) -> (kind: Kind)
        ensures
            kind == self.spec_kind(),
    {
        match self {
            Transform::Identity => Kind::Identity,
            Transform::Rotate { .. } => Kind::Rotate,
            Transform::Translate { .. } => Kind::Translate,
            Transform::Scale { .. } => Kind::Scale,
        }
    }

    /// The transform that a slot holds when it is switched to `kind`.
    #[verifier::when_used_as_spec(spec_initial)]
    pub fn initial(kind: Kind) -> (transform: Transform)
        ensures
            transform == Transform::spec_initial(kind),
    {
        match kind {
            Kind::Identity => Transform::Identity,
            Kind::Rotate => Transform::Rotate { angle_degrees: ZERO },
            Kind::Translate => Transform::Translate { tx: ZERO, ty: ZERO },
            Kind::Scale => Transform::Scale { sx: ONE, sy: ONE },
        }
    }
}

/// A switched slot holds a transform of the kind it was switched to.
pub proof fn lemma_initial_kind(kind: Kind)
    ensures
        Transform::spec_initial(kind).spec_kind() == kind,
{
}

/// An ordered chain of transforms. The first is applied first. Slots are
/// edited in place; none is added or removed.
pub struct Chain {
    slots: Vec<Transform>,
}

impl View for Chain {
    type V = Seq<Transform>;

    closed spec fn view(&self) -> Seq<Transform> {
        self.slots@
    }
}

/// What an edit of slot `index` leaves: `next` in that slot, every other
/// slot as it was.
pub open spec fn edited(before: Seq<Transform>, index: int, next: Transform) -> Seq<Transform> {
    before.update(index, next)
}

/// What an edit for transforms of `kind` answers on slot `index`.
pub open spec fn verdict(before: Seq<Transform>, index: int, kind: Kind) -> Result<(), EditError> {
    if !(0 <= index < before.len()) {
        Err(EditError::NoSuchSlot)
    } else if before[index].spec_kind() != kind {
        Err(EditError::OtherKind)
    } else {
        Ok(())
    }
}

impl Chain {
    /// A chain of `len` slots, each the identity.
    pub fn new(len: usize) -> (chain: Chain)
        ensures
            chain@ == Seq::new(len as nat, |i: int| Transform::Identity),
    {
        let mut slots: Vec<Transform> = Vec::with_capacity(len);
        let mut i: usize = 0;
        while i < len
            invariant
                i <= len,
                slots@ == Seq::new(i as nat, |k: int| Transform::Identity),
            decreases len - i,
        {
            slots.push(Transform::Identity);
            i += 1;
            assert(slots@ =~= Seq::new(i as nat, |k: int| Transform::Identity));
        }
        Chain { slots }
    }

    /// The number of slots.
    pub fn len(&self) -> (len: usize)
        ensures
            len == self@.len(),
    {
        self.slots.len()
    }

    /// The transform in slot `index`, where the chain has that slot.
    pub fn get(&self, index: usize) -> (transform: Option<Transform>)
        ensures
            transform == if index < self@.len() {
                Some(self@[index as int])
            } else {
                None
            },
    {
        if index < self.slots.len() {
            Some(self.slots[index])
        } else {
            None
        }
    }

    /// The transforms in order.
    pub fn transforms(&self) -> (slots: &Vec<Transform>)
        ensures
            slots@ == self@,
    {
        &self.slots
    }

    /// Switches slot `index` to `kind`. The slot then holds the initial
    /// transform of that kind, whatever it held before.
    pub fn select(&mut self, index: usize, kind: Kind) -> (done: Result<(), EditError>)
        ensures
            done == if index < old(self)@.len() {
                Ok::<(), EditError>(())
            } else {
                Err(EditError::NoSuchSlot)
            },
            done is Ok ==> final(self)@ == edited(
                old(self)@,
                index as int,
                Transform::spec_initial(kind),
            ),
            done is Err ==> final(self)@ == old(self)@,
    {
        if index < self.slots.len() {
            self.slots.set(index, Transform::initial(kind));
            Ok(())
        } else {
            Err(EditError::NoSuchSlot)
        }
    }

    /// Sets the angle of the rotation in slot `index`.
    pub fn set_angle(&mut self, index: usize, angle_degrees: u32) -> (done: Result<(), EditError>)
        ensures
            done == verdict(old(self)@, index as int, Kind::Rotate),
            done is Ok ==> final(self)@ == edited(
                old(self)@,
                index as int,
                Transform::Rotate { angle_degrees },
            ),
            done is Err ==> final(self)@ == old(self)@,
    {
        if index >= self.slots.len() {
            return Err(EditError::NoSuchSlot);
        }
        match self.slots[index] {
            Transform::Rotate { .. } => {
                self.slots.set(index, Transform::Rotate { angle_degrees });
                Ok(())
            },
            _ => Err(EditError::OtherKind),
        }
    }

    /// Sets the shift of the translation in slot `index`.
    pub fn set_shift(&mut self, index: usize, tx: u32, ty: u32) -> (done: Result<(), EditError>)
        ensures
            done == verdict(old(self)@, index as int, Kind::Translate),
            done is Ok ==> final(self)@ == edited(
                old(self)@,
                index as int,
                Transform::Translate { tx, ty },
            ),
            done is Err ==> final(self)@ == old(self)@,
    {
        if index >= self.slots.len() {
            return Err(EditError::NoSuchSlot);
        }
        match self.slots[index] {
            Transform::Translate { .. } => {
                self.slots.set(index, Transform::Translate { tx, ty });
                Ok(())
            },
            _ => Err(EditError::OtherKind),
        }
    }

    /// Sets the factors of the scaling in slot `index`. A factor of zero is
    /// taken as it is: it is the editor that keeps factors positive.
    pub fn set_factors(&mut self, index: usize, sx: u32, sy: u32) -> (done: Result<(), EditError>)
        ensures
            done == verdict(old(self)@, index as int, Kind::Scale),
            done is Ok ==> final(self)@ == edited(
                old(self)@,
                index as int,
                Transform::Scale { sx, sy },
            ),
            done is Err ==> final(self)@ == old(self)@,
    {
        if index >= self.slots.len() {
            return Err(EditError::NoSuchSlot);
        }
        match self.slots[index] {
            Transform::Scale { .. } => {
                self.slots.set(index, Transform::Scale { sx, sy });
                Ok(())
            },
            _ => Err(EditError::OtherKind),
        }
    }
}

/// An edit changes the slot it names and no other, and keeps the number of
/// slots.
pub proof fn lemma_edit_is_local(before: Seq<Transform>, index: int, next: Transform)
    requires
        0 <= index < before.len(),
    ensures
        edited(before, index, next).len() == before.len(),
        edited(before, index, next)[index] == next,
        forall|j: int|
            0 <= j < before.len() && j != index ==> #[trigger] edited(before, index, next)[j]
                == before[j],
{
}

/// A slot that was switched to a kind takes the edits for that kind.
pub proof fn lemma_switched_slot_takes_edits(before: Seq<Transform>, index: int, kind: Kind)
    requires
        0 <= index < before.len(),
    ensures
        verdict(edited(before, index, Transform::spec_initial(kind)), index, kind) is Ok,
{
}

/// Switching a slot to the identity, in a chain whose other slots are the
/// identity, gives the chain that a new chain of that length is.
pub proof fn lemma_reset_restores(before: Seq<Transform>, index: int)
    requires
        0 <= index < before.len(),
        forall|j: int| 0 <= j < before.len() && j != index ==> before[j] == Transform::Identity,
    ensures
        edited(before, index, Transform::spec_initial(Kind::Identity)) == Seq::new(
            before.len(),
            |i: int| Transform::Identity,
        ),
{
    assert(edited(before, index, Transform::spec_initial(Kind::Identity)) =~= Seq::new(
        before.len(),
        |i: int| Transform::Identity,
    ));
}

} // verus!
