use crate::effect::GridEffect;
use crate::state::{GridState, UniverseGridMode};
use vstd::prelude::*;

verus! {

/// The properties that a grid shows to its toolkit.
#[derive(Debug, Clone, Copy, PartialEq, Eq, Structural)]
pub enum GridProperty {
    Mode,
    AllowDrawOnResize,
    Frozen,
    IsRunning,
}

/// What a property holds while nothing was set.
#[derive(Debug, Clone, Copy, PartialEq, Eq, Structural)]
pub enum PropertyDefault {
    /// The number of an enumeration value.
    Enumerated(i32),
    Boolean(bool),
}

/// What can be done with a property from outside.
#[derive(Debug, Clone, Copy, PartialEq, Eq, Structural)]
pub enum PropertyAccess {
    Readable,
    ReadWrite,
}

/// The description of one property.
#[derive(Debug, Clone, Copy, PartialEq, Eq, Structural)]
pub struct PropertySpec {
    pub property: GridProperty,
    pub default: PropertyDefault,
    pub access: PropertyAccess,
}

/// The value of a property.
#[derive(Debug, Clone, Copy, PartialEq, Eq, Structural)]
pub enum PropertyValue {
    Mode(UniverseGridMode),
    Boolean(bool),
}

impl GridProperty {
    /// The name of a property.
    pub open spec fn title(self) -> Seq<char> {
        match self {
            GridProperty::Mode => "mode"@,
            GridProperty::AllowDrawOnResize => "allow-draw-on-resize"@,
            GridProperty::Frozen => "frozen"@,
            GridProperty::IsRunning => "is-running"@,
        }
    }

    /// The property of a given name.
    pub open spec fn titled(name: Seq<char>) -> Option<GridProperty> {
        if name == "mode"@ {
            Some(GridProperty::Mode)
        } else if name == "allow-draw-on-resize"@ {
            Some(GridProperty::AllowDrawOnResize)
        } else if name == "frozen"@ {
            Some(GridProperty::Frozen)
        } else if name == "is-running"@ {
            Some(GridProperty::IsRunning)
        } else {
            None
        }
    }

    /// The name of this property.
    pub fn name(&self) -> (name: &'static str)
        ensures
            name@ == self.title(),
    {
        match self {
            GridProperty::Mode => "mode",
            GridProperty::AllowDrawOnResize => "allow-draw-on-resize",
            GridProperty::Frozen => "frozen",
            GridProperty::IsRunning => "is-running",
        }
    }

    /// Finds the property of a given name.
    pub fn from_name(name: &str) -> (property: Option<GridProperty>)
        ensures
            property == GridProperty::titled(name@),
    {
        let name: String = name.to_owned();
        if name == "mode".to_owned() {
            Some(GridProperty::Mode)
        } else if name == "allow-draw-on-resize".to_owned() {
            Some(GridProperty::AllowDrawOnResize)
        } else if name == "frozen".to_owned() {
            Some(GridProperty::Frozen)
        } else if name == "is-running".to_owned() {
            Some(GridProperty::IsRunning)
        } else {
            None
        }
    }
}

impl GridState {
    /// What a property holds.
    pub open spec fn property_value(self, property: GridProperty) -> PropertyValue {
        match property {
            GridProperty::Mode => PropertyValue::Mode(self.mode),
            GridProperty::AllowDrawOnResize => PropertyValue::Boolean(self.allow_draw_on_resize),
            GridProperty::Frozen => PropertyValue::Boolean(self.frozen),
            GridProperty::IsRunning => PropertyValue::Boolean(self.running),
        }
    }

    /// The property named `name` can be set, to a value of the type of `value`.
    pub open spec fn settable(name: Seq<char>, value: PropertyValue) -> bool {
        match GridProperty::titled(name) {
            Some(GridProperty::Mode) => value is Mode,
            Some(GridProperty::AllowDrawOnResize) => value is Boolean,
            Some(GridProperty::Frozen) => value is Boolean,
            _ => false,
        }
    }

    /// The state after the property named `name` was set.
    pub open spec fn with_property(self, name: Seq<char>, value: PropertyValue) -> GridState {
        match (GridProperty::titled(name), value) {
            (Some(GridProperty::Mode), PropertyValue::Mode(mode)) => self.with_mode(mode),
            (Some(GridProperty::AllowDrawOnResize), PropertyValue::Boolean(allow)) => GridState {
                allow_draw_on_resize: allow,
                ..self
            },
            (Some(GridProperty::Frozen), PropertyValue::Boolean(frozen)) => self.with_frozen(
                frozen,
            ),
            _ => self,
        }
    }

    pub open spec fn property_effects(name: Seq<char>, value: PropertyValue) -> Seq<GridEffect> {
        match (GridProperty::titled(name), value) {
            (Some(GridProperty::Mode), _) => seq![GridEffect::NotifyMode],
            (Some(GridProperty::Frozen), PropertyValue::Boolean(false)) => seq![
                GridEffect::QueueDraw,
            ],
            _ => seq![],
        }
    }
}

} // verus!
