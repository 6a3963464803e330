//! Parameter descriptors and their checkout/add/checkin lifecycle.
//!
//! A descriptor starts `Created`; it is either handed to the host with
//! `add`, or it is produced by a `checkout` and later either checked
//! back in or suppressed (when the host has since taken ownership of it
//! through another path).  Its payload is one of the mutually exclusive
//! parameter kinds; setting a payload tags the descriptor's kind and
//! overwrites whatever was there.

use vstd::prelude::*;
use vstd::string::StringExecFns;
use crate::host::FlatHandle;

verus! {

/// One 8-bit-per-channel pixel, alpha first, as host color parameters
/// store it.
#[derive(Clone, Copy, Debug, PartialEq, Eq, Structural)]
pub struct Pixel {
    pub alpha: u8,
    pub red: u8,
    pub green: u8,
    pub blue: u8,
}

pub type Pixel8 = Pixel;

/// The host's parameter kinds.
#[derive(Clone, Copy, Debug, PartialEq, Eq, Structural)]
pub enum ParamType {
    Reserved,
    Layer,
    Slider,
    FixSlider,
    Angle,
    CheckBox,
    Color,
    Point,
    PopUp,
    Custom,
    NoData,
    FloatSlider,
    ArbitraryData,
    Path,
    GroupStart,
    GroupEnd,
    Button,
    Reserved2,
    Reserved3,
    Point3D,
}

/// How a parameter's UI reacts to events and layout.
#[derive(Clone, Copy, Debug, PartialEq, Eq, Structural)]
pub struct ParamUIFlags {
    pub bits: u32,
}

impl ParamUIFlags {
    pub fn none() -> (r: ParamUIFlags)
        ensures
            r.bits == 0,
    {
        ParamUIFlags { bits: 0 }
    }

    pub fn topic() -> (r: ParamUIFlags)
        ensures
            r.bits == 1,
    {
        ParamUIFlags { bits: 1 }
    }

    pub fn control() -> (r: ParamUIFlags)
        ensures
            r.bits == 2,
    {
        ParamUIFlags { bits: 2 }
    }

    pub fn control_only() -> (r: ParamUIFlags)
        ensures
            r.bits == 4,
    {
        ParamUIFlags { bits: 4 }
    }

    pub fn no_ecw_ui() -> (r: ParamUIFlags)
        ensures
            r.bits == 8,
    {
        ParamUIFlags { bits: 8 }
    }

    pub fn disabled() -> (r: ParamUIFlags)
        ensures
            r.bits == 16,
    {
        ParamUIFlags { bits: 16 }
    }

    pub fn invisible() -> (r: ParamUIFlags)
        ensures
            r.bits == 32,
    {
        ParamUIFlags { bits: 32 }
    }

    /// Combine two flag sets.
    pub fn or(self, other: ParamUIFlags) -> (r: ParamUIFlags)
        ensures
            r.bits == self.bits | other.bits,
    {
        ParamUIFlags { bits: self.bits | other.bits }
    }
}

/// Behavioural flags of a parameter.
#[derive(Clone, Copy, Debug, PartialEq, Eq, Structural)]
pub struct ParamFlag {
    pub bits: u32,
}

impl ParamFlag {
    pub fn none() -> (r: ParamFlag)
        ensures
            r.bits == 0,
    {
        ParamFlag { bits: 0 }
    }

    pub fn cannot_time_vary() -> (r: ParamFlag)
        ensures
            r.bits == 1,
    {
        ParamFlag { bits: 1 }
    }

    pub fn cannot_interp() -> (r: ParamFlag)
        ensures
            r.bits == 2,
    {
        ParamFlag { bits: 2 }
    }

    pub fn twirly() -> (r: ParamFlag)
        ensures
            r.bits == 4,
    {
        ParamFlag { bits: 4 }
    }

    pub fn supervise() -> (r: ParamFlag)
        ensures
            r.bits == 8,
    {
        ParamFlag { bits: 8 }
    }

    pub fn start_collapsed() -> (r: ParamFlag)
        ensures
            r.bits == 16,
    {
        ParamFlag { bits: 16 }
    }

    /// Combine two flag sets.
    pub fn or(self, other: ParamFlag) -> (r: ParamFlag)
        ensures
            r.bits == self.bits | other.bits,
    {
        ParamFlag { bits: self.bits | other.bits }
    }
}

/// A popup (menu) parameter: the chosen entry and the menu text in the
/// host's "first|second|third|" form.
#[derive(Clone, Debug)]
pub struct PopupDef {
    pub value: i32,
    pub dephault: u16,
    pub names: String,
    pub num_choices: u16,
}

/// The host's menu text: every entry followed by one `|`; the host
/// ignores the trailing one.
pub open spec fn joined_names(names: Seq<Seq<char>>) -> Seq<char>
    decreases names.len(),
{
    if names.len() == 0 {
        Seq::empty()
    } else {
        joined_names(names.drop_last()) + names.last() + seq!['|']
    }
}

impl PopupDef {
    /// An empty popup.
    pub fn new() -> (r: PopupDef)
        ensures
            r.value == 0,
            r.dephault == 0,
            r.names@ == Seq::<char>::empty(),
            r.num_choices == 0,
    {
        proof {
            reveal_strlit("");
            assert(""@ =~= Seq::<char>::empty());
        }
        PopupDef { value: 0, dephault: 0, names: String::from_str(""), num_choices: 0 }
    }

    /// Install the menu entries, joined the way the host expects.
    #[verifier::loop_isolation(false)]
    pub fn names(&mut self, names: &Vec<String>)
        requires
            names@.len() <= u16::MAX,
        ensures
            final(self).names@ == joined_names(names@.map_values(|s: String| s@)),
            final(self).num_choices == names@.len(),
            final(self).value == old(self).value,
            final(self).dephault == old(self).dephault,
    {
        let ghost views = names@.map_values(|s: String| s@);
        let mut joined = String::from_str("");
        proof {
            reveal_strlit("");
            assert(""@ =~= Seq::<char>::empty());
            assert(views.len() == names@.len());
            assert(views.take(0) =~= Seq::<Seq<char>>::empty());
        }
        let mut i: usize = 0;
        while i < names.len()
            invariant
                0 <= i <= names@.len(),
                joined@ == joined_names(views.take(i as int)),
            decreases names@.len() - i,
        {
            joined.append(names[i].as_str());
            joined.append("|");
            proof {
                reveal_strlit("|");
                assert("|"@ =~= seq!['|']);
                assert(views.take(i + 1).drop_last() =~= views.take(i as int));
                assert(views.take(i + 1).last() == views[i as int]);
                assert(joined@ =~= joined_names(views.take(i + 1)));
            }
            i = i + 1;
        }
        proof {
            assert(views.take(names@.len() as int) =~= views);
        }
        self.names = joined;
        self.num_choices = i as u16;
    }

    /// The chosen entry, as the host reports it.
    pub fn get(&self) -> (r: u16)
        ensures
            r == self.value as u16,
    {
        #[verifier::truncate] (self.value as u16)
    }

    /// Set the current entry.
    pub fn value(&mut self, value: i32)
        ensures
            *final(self) == (PopupDef { value, ..*old(self) }),
    {
        self.value = value;
    }

    /// Set the entry selected when the parameter is reset.
    pub fn default(&mut self, dephault: u16)
        ensures
            *final(self) == (PopupDef { dephault, ..*old(self) }),
    {
        self.dephault = dephault;
    }
}

/// An angle parameter.
#[derive(Clone, Copy, Debug, PartialEq, Eq, Structural)]
pub struct AngleDef {
    pub value: i32,
    pub dephault: i32,
}

impl AngleDef {
    pub fn new() -> (r: AngleDef)
        ensures
            r.value == 0,
            r.dephault == 0,
    {
        AngleDef { value: 0, dephault: 0 }
    }

    /// The current angle value.
    pub fn get(&self) -> (r: i32)
        ensures
            r == self.value,
    {
        self.value
    }

    pub fn value(&mut self, value: i32)
        ensures
            *final(self) == (AngleDef { value, ..*old(self) }),
    {
        self.value = value;
    }

    pub fn default(&mut self, dephault: i32)
        ensures
            *final(self) == (AngleDef { dephault, ..*old(self) }),
    {
        self.dephault = dephault;
    }
}

/// An integer slider parameter.
#[derive(Clone, Copy, Debug, PartialEq, Eq, Structural)]
pub struct SliderDef {
    pub value: i32,
    pub dephault: i32,
    pub valid_min: i32,
    pub valid_max: i32,
    pub slider_min: i32,
    pub slider_max: i32,
}

impl SliderDef {
    pub fn new() -> (r: SliderDef)
        ensures
            r == (SliderDef {
                value: 0,
                dephault: 0,
                valid_min: 0,
                valid_max: 0,
                slider_min: 0,
                slider_max: 0,
            }),
    {
        SliderDef { value: 0, dephault: 0, valid_min: 0, valid_max: 0, slider_min: 0, slider_max: 0 }
    }

    /// The current slider value.
    pub fn get(&self) -> (r: i32)
        ensures
            r == self.value,
    {
        self.value
    }

    pub fn value(&mut self, value: i32)
        ensures
            *final(self) == (SliderDef { value, ..*old(self) }),
    {
        self.value = value;
    }

    pub fn default(&mut self, dephault: i32)
        ensures
            *final(self) == (SliderDef { dephault, ..*old(self) }),
    {
        self.dephault = dephault;
    }

    pub fn valid_min(&mut self, valid_min: i32)
        ensures
            *final(self) == (SliderDef { valid_min, ..*old(self) }),
    {
        self.valid_min = valid_min;
    }

    pub fn valid_max(&mut self, valid_max: i32)
        ensures
            *final(self) == (SliderDef { valid_max, ..*old(self) }),
    {
        self.valid_max = valid_max;
    }

    pub fn slider_min(&mut self, slider_min: i32)
        ensures
            *final(self) == (SliderDef { slider_min, ..*old(self) }),
    {
        self.slider_min = slider_min;
    }

    pub fn slider_max(&mut self, slider_max: i32)
        ensures
            *final(self) == (SliderDef { slider_max, ..*old(self) }),
    {
        self.slider_max = slider_max;
    }
}

/// How a slider's value is rendered in the effect controls.
#[derive(Clone, Copy, Debug, PartialEq, Eq, Structural)]
pub struct ValueDisplayFlag {
    pub bits: u16,
}

impl ValueDisplayFlag {
    pub fn none() -> (r: ValueDisplayFlag)
        ensures
            r.bits == 0,
    {
        ValueDisplayFlag { bits: 0 }
    }

    pub fn percent() -> (r: ValueDisplayFlag)
        ensures
            r.bits == 1,
    {
        ValueDisplayFlag { bits: 1 }
    }

    pub fn pixel() -> (r: ValueDisplayFlag)
        ensures
            r.bits == 2,
    {
        ValueDisplayFlag { bits: 2 }
    }

    pub fn reverse() -> (r: ValueDisplayFlag)
        ensures
            r.bits == 8,
    {
        ValueDisplayFlag { bits: 8 }
    }

    /// Combine two flag sets.
    pub fn or(self, other: ValueDisplayFlag) -> (r: ValueDisplayFlag)
        ensures
            r.bits == self.bits | other.bits,
    {
        ValueDisplayFlag { bits: self.bits | other.bits }
    }
}

/// The display-relevant part of a float-slider parameter.  The float
/// value itself lives outside this crate's scope; what is modeled is
/// what the display and precision setters touch.
#[derive(Clone, Copy, Debug, PartialEq, Eq, Structural)]
pub struct FloatSliderDef {
    pub display_flags: u16,
    pub precision: u8,
}

impl FloatSliderDef {
    pub fn new() -> (r: FloatSliderDef)
        ensures
            r.display_flags == 0,
            r.precision == 0,
    {
        FloatSliderDef { display_flags: 0, precision: 0 }
    }

    /// Choose how the value is displayed (percent, pixels, reversed).
    pub fn display_flags(&mut self, display_flags: ValueDisplayFlag)
        ensures
            final(self).display_flags == display_flags.bits,
            final(self).precision == old(self).precision,
    {
        self.display_flags = display_flags.bits;
    }

    /// Choose how many decimal places are shown.
    pub fn precision(&mut self, precision: u8)
        ensures
            final(self).precision == precision,
            final(self).display_flags == old(self).display_flags,
    {
        self.precision = precision;
    }
}

/// A color parameter.
#[derive(Clone, Copy, Debug, PartialEq, Eq, Structural)]
pub struct ColorDef {
    pub value: Pixel,
    pub dephault: Pixel,
}

impl ColorDef {
    pub fn new() -> (r: ColorDef)
        ensures
            r.value == (Pixel { alpha: 0, red: 0, green: 0, blue: 0 }),
            r.dephault == (Pixel { alpha: 0, red: 0, green: 0, blue: 0 }),
    {
        let zero = Pixel { alpha: 0, red: 0, green: 0, blue: 0 };
        ColorDef { value: zero, dephault: zero }
    }

    /// The current color.
    pub fn get(&self) -> (r: Pixel)
        ensures
            r == self.value,
    {
        self.value
    }

    pub fn value(&mut self, value: Pixel)
        ensures
            *final(self) == (ColorDef { value, ..*old(self) }),
    {
        self.value = value;
    }

    pub fn default(&mut self, dephault: Pixel)
        ensures
            *final(self) == (ColorDef { dephault, ..*old(self) }),
    {
        self.dephault = dephault;
    }
}

/// A checkbox parameter.
#[derive(Clone, Debug)]
pub struct CheckBoxDef {
    pub value: i32,
    pub dephault: bool,
    pub label: String,
}

impl CheckBoxDef {
    pub fn new() -> (r: CheckBoxDef)
        ensures
            r.value == 0,
            r.dephault == false,
            r.label@ == Seq::<char>::empty(),
    {
        proof {
            reveal_strlit("");
            assert(""@ =~= Seq::<char>::empty());
        }
        CheckBoxDef { value: 0, dephault: false, label: String::from_str("") }
    }

    /// Set the label shown beside the box.
    pub fn label(&mut self, label: String)
        ensures
            final(self).label == label,
            final(self).value == old(self).value,
            final(self).dephault == old(self).dephault,
    {
        self.label = label;
    }

    /// Whether the box is checked.
    pub fn get(&self) -> (r: bool)
        ensures
            r == (self.value != 0),
    {
        self.value != 0
    }

    pub fn value(&mut self, value: i32)
        ensures
            final(self).value == value,
            final(self).dephault == old(self).dephault,
            final(self).label == old(self).label,
    {
        self.value = value;
    }

    pub fn default(&mut self, dephault: bool)
        ensures
            final(self).dephault == dephault,
            final(self).value == old(self).value,
            final(self).label == old(self).label,
    {
        self.dephault = dephault;
    }
}

/// A button parameter.
#[derive(Clone, Debug)]
pub struct ButtonDef {
    pub label: String,
}

impl ButtonDef {
    pub fn new() -> (r: ButtonDef)
        ensures
            r.label@ == Seq::<char>::empty(),
    {
        proof {
            reveal_strlit("");
            assert(""@ =~= Seq::<char>::empty());
        }
        ButtonDef { label: String::from_str("") }
    }

    /// Set the button's label.
    pub fn label(&mut self, label: String)
        ensures
            final(self).label == label,
    {
        self.label = label;
    }
}

/// An arbitrary-data parameter: its default value lives in a flat
/// handle the host ends up owning, and the plugin marks the parameter
/// with a tag it can recognize in later callbacks.
#[derive(Clone, Copy, Debug, PartialEq, Eq, Structural)]
pub struct ArbitraryDef {
    pub dephault: Option<usize>,
    pub refcon: usize,
}

impl ArbitraryDef {
    /// A definition with no default installed yet.
    pub fn new() -> (r: ArbitraryDef)
        ensures
            r.dephault is None,
            r.refcon == 0,
    {
        ArbitraryDef { dephault: None, refcon: 0 }
    }

    /// Install the default value's handle.  The handle's ownership
    /// passes to the definition (and with it, to the host): it is
    /// released to raw form, not disposed.
    pub fn default(self, handle: FlatHandle) -> (r: ArbitraryDef)
        ensures
            r.dephault == Some(handle.id_spec()),
            r.refcon == self.refcon,
    {
        ArbitraryDef { dephault: Some(handle.into_raw()), ..self }
    }

    /// Mark the parameter with a plugin-chosen tag.
    pub fn refcon(self, refcon: usize) -> (r: ArbitraryDef)
        ensures
            r.refcon == refcon,
            r.dephault == self.dephault,
    {
        ArbitraryDef { refcon, ..self }
    }

    /// Whether the parameter carries the given tag.
    pub fn has_refcon(&self, refcon: usize) -> (r: bool)
        ensures
            r == (self.refcon == refcon),
    {
        self.refcon == refcon
    }

    /// Seal the definition.
    pub fn finalize(self) -> (r: ArbitraryDef)
        ensures
            r == self,
    {
        self
    }
}

/// The payload of a parameter descriptor: exactly one of the host's
/// parameter kinds.
pub enum ParamDefUnion {
    PopupDef(PopupDef),
    AngleDef(AngleDef),
    CheckBoxDef(CheckBoxDef),
    SliderDef(SliderDef),
    FloatSliderDef(FloatSliderDef),
    ColorDef(ColorDef),
    ButtonDef(ButtonDef),
    ArbitraryDef(ArbitraryDef),
}

/// The kind a payload tags its descriptor with.
pub open spec fn union_type(u: ParamDefUnion) -> ParamType {
    match u {
        ParamDefUnion::PopupDef(..) => ParamType::PopUp,
        ParamDefUnion::AngleDef(..) => ParamType::Angle,
        ParamDefUnion::CheckBoxDef(..) => ParamType::CheckBox,
        ParamDefUnion::SliderDef(..) => ParamType::Slider,
        ParamDefUnion::FloatSliderDef(..) => ParamType::FloatSlider,
        ParamDefUnion::ColorDef(..) => ParamType::Color,
        ParamDefUnion::ButtonDef(..) => ParamType::Button,
        ParamDefUnion::ArbitraryDef(..) => ParamType::ArbitraryData,
    }
}

/// Where a descriptor stands in its lifecycle.
#[derive(Clone, Copy, Debug, PartialEq, Eq, Structural)]
pub enum ParamState {
    /// Built by the plugin, not yet given to the host.
    Created,
    /// Handed to the host; nothing is owed back.
    Added,
    /// Borrowed from the host; a checkin is owed.
    CheckedOut,
    /// Returned to the host.
    CheckedIn,
    /// The checkin was suppressed: the host already owns the
    /// descriptor through another path.
    Suppressed,
}

/// One UI-exposed parameter descriptor, with its lifecycle state.
pub struct ParamDef {
    pub payload: Option<ParamDefUnion>,
    pub param_type: ParamType,
    pub name: String,
    pub ui_flags: u32,
    pub ui_width: u16,
    pub ui_height: u16,
    pub flags: u32,
    pub state: ParamState,
    pub checkout_index: i32,
    pub checkout_time: i32,
    pub checkout_time_step: i32,
    pub checkout_time_scale: u32,
}

impl ParamDef {
    /// A blank descriptor, owned by the plugin.
    pub fn new() -> (r: ParamDef)
        ensures
            r.payload is None,
            r.param_type == ParamType::Reserved,
            r.name@ == Seq::<char>::empty(),
            r.ui_flags == 0,
            r.ui_width == 0,
            r.ui_height == 0,
            r.flags == 0,
            r.state == ParamState::Created,
    {
        proof {
            reveal_strlit("");
            assert(""@ =~= Seq::<char>::empty());
        }
        ParamDef {
            payload: None,
            param_type: ParamType::Reserved,
            name: String::from_str(""),
            ui_flags: 0,
            ui_width: 0,
            ui_height: 0,
            flags: 0,
            state: ParamState::Created,
            checkout_index: 0,
            checkout_time: 0,
            checkout_time_step: 0,
            checkout_time_scale: 0,
        }
    }

    /// Hand the descriptor to the host at the given parameter index.
    /// It was never checked out, so nothing is owed back.
    #[allow(unused_variables)]
    pub fn add(&mut self, index: i32)
        requires
            old(self).state == ParamState::Created,
        ensures
            final(self).state == ParamState::Added,
            final(self).payload == old(self).payload,
            final(self).param_type == old(self).param_type,
            final(self).name == old(self).name,
            final(self).ui_flags == old(self).ui_flags,
            final(self).ui_width == old(self).ui_width,
            final(self).ui_height == old(self).ui_height,
            final(self).flags == old(self).flags,
    {
        self.state = ParamState::Added;
    }

    /// Borrow a parameter descriptor from the host for the given index
    /// and time; the descriptor now owes the host a checkin.
    pub fn checkout(index: i32, what_time: i32, time_step: i32, time_scale: u32) -> (r: ParamDef)
        ensures
            r.state == ParamState::CheckedOut,
            r.checkout_index == index,
            r.checkout_time == what_time,
            r.checkout_time_step == time_step,
            r.checkout_time_scale == time_scale,
            r.payload is None,
    {
        proof {
            reveal_strlit("");
            assert(""@ =~= Seq::<char>::empty());
        }
        ParamDef {
            payload: None,
            param_type: ParamType::Reserved,
            name: String::from_str(""),
            ui_flags: 0,
            ui_width: 0,
            ui_height: 0,
            flags: 0,
            state: ParamState::CheckedOut,
            checkout_index: index,
            checkout_time: what_time,
            checkout_time_step: time_step,
            checkout_time_scale: time_scale,
        }
    }

    /// Return a checked-out descriptor to the host.  In the host
    /// protocol this happens automatically when the descriptor's scope
    /// ends.
    pub fn checkin(&mut self)
        requires
            old(self).state == ParamState::CheckedOut,
        ensures
            final(self).state == ParamState::CheckedIn,
            final(self).payload == old(self).payload,
            final(self).param_type == old(self).param_type,
    {
        self.state = ParamState::CheckedIn;
    }

    /// Suppress the checkin owed for this descriptor: the host has
    /// since taken ownership of it through another path.
    pub fn do_not_checkin(&mut self)
        requires
            old(self).state == ParamState::CheckedOut,
        ensures
            final(self).state == ParamState::Suppressed,
            final(self).payload == old(self).payload,
            final(self).param_type == old(self).param_type,
    {
        self.state = ParamState::Suppressed;
    }

    /// Install a payload.  The descriptor's kind follows the payload;
    /// whatever was there before is overwritten.
    pub fn param(&mut self, param: ParamDefUnion)
        ensures
            final(self).payload == Some(param),
            final(self).param_type == union_type(param),
            final(self).name == old(self).name,
            final(self).ui_flags == old(self).ui_flags,
            final(self).ui_width == old(self).ui_width,
            final(self).ui_height == old(self).ui_height,
            final(self).flags == old(self).flags,
            final(self).state == old(self).state,
    {
        self.param_type = match &param {
            ParamDefUnion::PopupDef(..) => ParamType::PopUp,
            ParamDefUnion::AngleDef(..) => ParamType::Angle,
            ParamDefUnion::CheckBoxDef(..) => ParamType::CheckBox,
            ParamDefUnion::SliderDef(..) => ParamType::Slider,
            ParamDefUnion::FloatSliderDef(..) => ParamType::FloatSlider,
            ParamDefUnion::ColorDef(..) => ParamType::Color,
            ParamDefUnion::ButtonDef(..) => ParamType::Button,
            ParamDefUnion::ArbitraryDef(..) => ParamType::ArbitraryData,
        };
        self.payload = Some(param);
    }

    /// Tag the descriptor's kind without touching the payload.
    pub fn param_type(&mut self, param_type: ParamType)
        ensures
            final(self).param_type == param_type,
            final(self).payload == old(self).payload,
            final(self).state == old(self).state,
    {
        self.param_type = param_type;
    }

    /// Set the parameter's display name.  The host's name field holds
    /// 32 bytes, terminator included.
    pub fn name(&mut self, name: &str)
        requires
            name@.len() < 32,
        ensures
            final(self).name@ == name@,
            final(self).payload == old(self).payload,
            final(self).param_type == old(self).param_type,
            final(self).state == old(self).state,
    {
        self.name = name.to_owned();
    }

    pub fn ui_flags(&mut self, flags: ParamUIFlags)
        ensures
            final(self).ui_flags == flags.bits,
            final(self).payload == old(self).payload,
            final(self).param_type == old(self).param_type,
            final(self).state == old(self).state,
    {
        self.ui_flags = flags.bits;
    }

    pub fn ui_width(&mut self, width: u16)
        ensures
            final(self).ui_width == width,
            final(self).payload == old(self).payload,
            final(self).param_type == old(self).param_type,
            final(self).state == old(self).state,
    {
        self.ui_width = width;
    }

    pub fn ui_height(&mut self, height: u16)
        ensures
            final(self).ui_height == height,
            final(self).payload == old(self).payload,
            final(self).param_type == old(self).param_type,
            final(self).state == old(self).state,
    {
        self.ui_height = height;
    }

    pub fn flags(&mut self, flags: ParamFlag)
        ensures
            final(self).flags == flags.bits,
            final(self).payload == old(self).payload,
            final(self).param_type == old(self).param_type,
            final(self).state == old(self).state,
    {
        self.flags = flags.bits;
    }
}

impl PopupDef {
    /// The popup payload of a descriptor tagged as a popup, if any.
    pub fn from(param: &ParamDef) -> (r: Option<&PopupDef>)
        ensures
            match r {
                Some(d) => param.param_type == ParamType::PopUp && param.payload == Some(
                    ParamDefUnion::PopupDef(*d),
                ),
                None => !(param.param_type == ParamType::PopUp && param.payload matches Some(
                    ParamDefUnion::PopupDef(_),
                )),
            },
    {
        match (&param.param_type, &param.payload) {
            (ParamType::PopUp, Some(ParamDefUnion::PopupDef(d))) => Some(d),
            _ => None,
        }
    }
}

impl AngleDef {
    /// The angle payload of a descriptor tagged as an angle, if any.
    pub fn from(param: &ParamDef) -> (r: Option<&AngleDef>)
        ensures
            match r {
                Some(d) => param.param_type == ParamType::Angle && param.payload == Some(
                    ParamDefUnion::AngleDef(*d),
                ),
                None => !(param.param_type == ParamType::Angle && param.payload matches Some(
                    ParamDefUnion::AngleDef(_),
                )),
            },
    {
        match (&param.param_type, &param.payload) {
            (ParamType::Angle, Some(ParamDefUnion::AngleDef(d))) => Some(d),
            _ => None,
        }
    }
}

impl CheckBoxDef {
    /// The checkbox payload of a descriptor tagged as a checkbox, if
    /// any.
    pub fn from(param: &ParamDef) -> (r: Option<&CheckBoxDef>)
        ensures
            match r {
                Some(d) => param.param_type == ParamType::CheckBox && param.payload == Some(
                    ParamDefUnion::CheckBoxDef(*d),
                ),
                None => !(param.param_type == ParamType::CheckBox && param.payload matches Some(
                    ParamDefUnion::CheckBoxDef(_),
                )),
            },
    {
        match (&param.param_type, &param.payload) {
            (ParamType::CheckBox, Some(ParamDefUnion::CheckBoxDef(d))) => Some(d),
            _ => None,
        }
    }
}

impl SliderDef {
    /// The slider payload of a descriptor tagged as a slider, if any.
    pub fn from(param: &ParamDef) -> (r: Option<&SliderDef>)
        ensures
            match r {
                Some(d) => param.param_type == ParamType::Slider && param.payload == Some(
                    ParamDefUnion::SliderDef(*d),
                ),
                None => !(param.param_type == ParamType::Slider && param.payload matches Some(
                    ParamDefUnion::SliderDef(_),
                )),
            },
    {
        match (&param.param_type, &param.payload) {
            (ParamType::Slider, Some(ParamDefUnion::SliderDef(d))) => Some(d),
            _ => None,
        }
    }
}

impl FloatSliderDef {
    /// The float-slider payload of a descriptor tagged as a float
    /// slider, if any.
    pub fn from(param: &ParamDef) -> (r: Option<&FloatSliderDef>)
        ensures
            match r {
                Some(d) => param.param_type == ParamType::FloatSlider && param.payload == Some(
                    ParamDefUnion::FloatSliderDef(*d),
                ),
                None => !(param.param_type == ParamType::FloatSlider && param.payload matches Some(
                    ParamDefUnion::FloatSliderDef(_),
                )),
            },
    {
        match (&param.param_type, &param.payload) {
            (ParamType::FloatSlider, Some(ParamDefUnion::FloatSliderDef(d))) => Some(d),
            _ => None,
        }
    }
}

impl ColorDef {
    /// The color payload of a descriptor tagged as a color, if any.
    pub fn from(param: &ParamDef) -> (r: Option<&ColorDef>)
        ensures
            match r {
                Some(d) => param.param_type == ParamType::Color && param.payload == Some(
                    ParamDefUnion::ColorDef(*d),
                ),
                None => !(param.param_type == ParamType::Color && param.payload matches Some(
                    ParamDefUnion::ColorDef(_),
                )),
            },
    {
        match (&param.param_type, &param.payload) {
            (ParamType::Color, Some(ParamDefUnion::ColorDef(d))) => Some(d),
            _ => None,
        }
    }
}

impl ButtonDef {
    /// The button payload of a descriptor tagged as a button, if any.
    pub fn from(param: &ParamDef) -> (r: Option<&ButtonDef>)
        ensures
            match r {
                Some(d) => param.param_type == ParamType::Button && param.payload == Some(
                    ParamDefUnion::ButtonDef(*d),
                ),
                None => !(param.param_type == ParamType::Button && param.payload matches Some(
                    ParamDefUnion::ButtonDef(_),
                )),
            },
    {
        match (&param.param_type, &param.payload) {
            (ParamType::Button, Some(ParamDefUnion::ButtonDef(d))) => Some(d),
            _ => None,
        }
    }
}

} // verus!
