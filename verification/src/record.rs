//! The configuration snapshot: a mapping from schema fields to string values.
//!
//! A record starts empty and is filled one field at a time; a snapshot that
//! covers the whole schema is full. A read that fails part-way leaves a
//! partial record behind, so every field is held as an optional value.

use crate::schema::Field;
use vstd::prelude::*;

verus! {

/// A snapshot of the device configuration: for each schema field, the field's
/// string value where one has been recorded. Viewed as a finite map from
/// fields to character sequences whose domain is the set of recorded fields.
pub struct ConfigRecord {
    pub brightness: Option<String>,
    pub color_left: Option<String>,
    pub color_center: Option<String>,
    pub color_right: Option<String>,
    pub color_extra: Option<String>,
    pub mode: Option<String>,
    pub state: Option<String>,
}

impl ConfigRecord {
    /// The recorded value of a field, if any.
    pub open spec fn spec_get(self, f: Field) -> Option<Seq<char>> {
        match f {
            Field::Brightness => match self.brightness { Some(v) => Some(v@), None => None },
            Field::ColorLeft => match self.color_left { Some(v) => Some(v@), None => None },
            Field::ColorCenter => match self.color_center { Some(v) => Some(v@), None => None },
            Field::ColorRight => match self.color_right { Some(v) => Some(v@), None => None },
            Field::ColorExtra => match self.color_extra { Some(v) => Some(v@), None => None },
            Field::Mode => match self.mode { Some(v) => Some(v@), None => None },
            Field::State => match self.state { Some(v) => Some(v@), None => None },
        }
    }

    /// Whether every schema field has a recorded value.
    pub open spec fn is_full(self) -> bool {
        forall|f: Field| self@.dom().contains(f)
    }

    /// A record with no field recorded.
    pub fn empty() -> (r: ConfigRecord)
        ensures
            r@ == Map::<Field, Seq<char>>::empty(),
    {
        let r = ConfigRecord {
            brightness: None,
            color_left: None,
            color_center: None,
            color_right: None,
            color_extra: None,
            mode: None,
            state: None,
        };
        proof {
            assert(r@ =~= Map::<Field, Seq<char>>::empty());
        }
        r
    }

    /// A full record, one value per schema field.
    pub fn new(
        brightness: String,
        color_left: String,
        color_center: String,
        color_right: String,
        color_extra: String,
        mode: String,
        state: String,
    ) -> (r: ConfigRecord)
        ensures
            r.is_full(),
            r@[Field::Brightness] == brightness@,
            r@[Field::ColorLeft] == color_left@,
            r@[Field::ColorCenter] == color_center@,
            r@[Field::ColorRight] == color_right@,
            r@[Field::ColorExtra] == color_extra@,
            r@[Field::Mode] == mode@,
            r@[Field::State] == state@,
    {
        let r = ConfigRecord {
            brightness: Some(brightness),
            color_left: Some(color_left),
            color_center: Some(color_center),
            color_right: Some(color_right),
            color_extra: Some(color_extra),
            mode: Some(mode),
            state: Some(state),
        };
        proof {
            assert forall|f: Field| r@.dom().contains(f) by {
                assert(r.spec_get(f) is Some);
            }
        }
        r
    }

    /// The recorded value of a field, if any.
    pub fn get(&self, f: Field) -> (r: Option<&String>)
        ensures
            match r {
                Some(v) => self@.dom().contains(f) && v@ == self@[f],
                None => !self@.dom().contains(f),
            },
    {
        match f {
            Field::Brightness => self.brightness.as_ref(),
            Field::ColorLeft => self.color_left.as_ref(),
            Field::ColorCenter => self.color_center.as_ref(),
            Field::ColorRight => self.color_right.as_ref(),
            Field::ColorExtra => self.color_extra.as_ref(),
            Field::Mode => self.mode.as_ref(),
            Field::State => self.state.as_ref(),
        }
    }

    /// Records a value for a field, replacing any earlier value.
    pub fn set(&mut self, f: Field, v: String)
        ensures
            final(self)@ == old(self)@.insert(f, v@),
    {
        let ghost pre = *self;
        match f {
            Field::Brightness => { self.brightness = Some(v); },
            Field::ColorLeft => { self.color_left = Some(v); },
            Field::ColorCenter => { self.color_center = Some(v); },
            Field::ColorRight => { self.color_right = Some(v); },
            Field::ColorExtra => { self.color_extra = Some(v); },
            Field::Mode => { self.mode = Some(v); },
            Field::State => { self.state = Some(v); },
        }
        proof {
            assert(self@ =~= pre@.insert(f, v@));
        }
    }
}

impl View for ConfigRecord {
    type V = Map<Field, Seq<char>>;

    open spec fn view(&self) -> Map<Field, Seq<char>> {
        Map::new(|f: Field| self.spec_get(f) is Some, |f: Field| self.spec_get(f)->0)
    }
}

} // verus!
