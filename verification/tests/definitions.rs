use after_effects::event::{ContextHandle, CustomEventFlags, CustomUIInfo, EventExtra, EventOutFlags, EventType};
use after_effects::geom::{Point, Rect};
use after_effects::host::{ByteStore, FlatHandle};
use after_effects::params::{
    AngleDef, ArbitraryDef, ButtonDef, CheckBoxDef, ColorDef, FloatSliderDef, ParamDef,
    ParamDefUnion, ParamFlag, ParamState, ParamType, ParamUIFlags, Pixel, PopupDef, SliderDef,
    ValueDisplayFlag,
};

#[test]
fn rect_is_empty() {
    let r = Rect { left: 0, top: 0, right: 10, bottom: 10 };
    assert!(!r.is_empty());
    assert!(Rect { left: 10, top: 0, right: 10, bottom: 10 }.is_empty());
    assert!(Rect { left: 0, top: 5, right: 10, bottom: 5 }.is_empty());
    assert!(Rect { left: 3, top: 8, right: 1, bottom: 9 }.is_empty());
}

#[test]
fn rect_union_grows_to_cover_both() {
    let mut r = Rect { left: 0, top: 0, right: 10, bottom: 10 };
    let other = Rect { left: -5, top: 2, right: 8, bottom: 20 };
    r.union(&other);
    assert_eq!(r, Rect { left: -5, top: 0, right: 10, bottom: 20 });
}

#[test]
fn rect_union_with_empty_replaces_self() {
    let mut r = Rect { left: 0, top: 0, right: 10, bottom: 10 };
    let empty = Rect { left: 4, top: 4, right: 4, bottom: 4 };
    r.union(&empty);
    assert_eq!(r, empty);
}

#[test]
fn rect_edge_pixels() {
    let r = Rect { left: 0, top: 0, right: 4, bottom: 4 };
    assert!(r.is_edge_pixel(0, 2));
    assert!(r.is_edge_pixel(4, 0));
    assert!(r.is_edge_pixel(2, 0));
    assert!(r.is_edge_pixel(2, 4));
    assert!(r.is_edge_pixel(0, 0));
    assert!(!r.is_edge_pixel(2, 2));
    assert!(!r.is_edge_pixel(5, 2));
    assert!(!r.is_edge_pixel(0, 5));
}

#[test]
fn point_fields() {
    let p = Point { h: -3, v: 9 };
    assert_eq!(p.h, -3);
    assert_eq!(p.v, 9);
}

#[test]
fn event_extra_reports_and_records() {
    let ctx = ContextHandle::from_raw(0xbeef);
    let mut e = EventExtra::new(ctx, EventType::DoClick);
    assert_eq!(e.get_context_handle(), ctx);
    assert_eq!(e.get_context_handle().as_raw(), 0xbeef);
    assert_eq!(e.get_event_type(), EventType::DoClick);
    assert_eq!(e.evt_out_flags, 0);
    e.event_out_flags(EventOutFlags::handled_event().or(EventOutFlags::always_update()));
    assert_eq!(e.evt_out_flags, 3);
}

#[test]
fn custom_ui_info_builder() {
    let mut info = CustomUIInfo::new();
    info.events(CustomEventFlags::comp().or(CustomEventFlags::layer()));
    info.comp_ui_width(320);
    info.comp_ui_height(200);
    info.layer_ui_width(64);
    info.layer_ui_height(32);
    info.preview_ui_width(16);
    info.preview_ui_height(8);
    let sealed = info.finalize();
    assert_eq!(sealed.events_bits, 3);
    assert_eq!(sealed.comp_ui_width, 320);
    assert_eq!(sealed.comp_ui_height, 200);
    assert_eq!(sealed.layer_ui_width, 64);
    assert_eq!(sealed.layer_ui_height, 32);
    assert_eq!(sealed.preview_ui_width, 16);
    assert_eq!(sealed.preview_ui_height, 8);
}

#[test]
fn param_def_add_path() {
    let mut def = ParamDef::new();
    assert_eq!(def.state, ParamState::Created);
    assert_eq!(def.param_type, ParamType::Reserved);
    def.name("Opacity");
    let mut angle = AngleDef::new();
    angle.value(90);
    angle.default(45);
    def.param(ParamDefUnion::AngleDef(angle));
    assert_eq!(def.param_type, ParamType::Angle);
    def.ui_flags(ParamUIFlags::topic().or(ParamUIFlags::control()));
    def.ui_width(120);
    def.ui_height(20);
    def.flags(ParamFlag::supervise());
    def.add(1);
    assert_eq!(def.state, ParamState::Added);
    assert_eq!(def.name, "Opacity");
    assert_eq!(def.ui_flags, 3);
    assert_eq!(def.ui_width, 120);
    assert_eq!(def.ui_height, 20);
    assert_eq!(def.flags, 8);
    let got = AngleDef::from(&def).expect("the payload is an angle");
    assert_eq!(got.get(), 90);
    assert_eq!(got.dephault, 45);
    assert!(SliderDef::from(&def).is_none());
}

#[test]
fn param_def_checkout_paths() {
    let mut out = ParamDef::checkout(2, 30, 1, 2997);
    assert_eq!(out.state, ParamState::CheckedOut);
    assert_eq!(out.checkout_index, 2);
    assert_eq!(out.checkout_time, 30);
    assert_eq!(out.checkout_time_step, 1);
    assert_eq!(out.checkout_time_scale, 2997);
    out.checkin();
    assert_eq!(out.state, ParamState::CheckedIn);

    let mut kept = ParamDef::checkout(3, 0, 1, 30);
    kept.do_not_checkin();
    assert_eq!(kept.state, ParamState::Suppressed);
}

#[test]
fn param_payload_tags_the_kind() {
    let mut def = ParamDef::new();
    def.param(ParamDefUnion::CheckBoxDef(CheckBoxDef::new()));
    assert_eq!(def.param_type, ParamType::CheckBox);
    def.param(ParamDefUnion::SliderDef(SliderDef::new()));
    assert_eq!(def.param_type, ParamType::Slider);
    def.param(ParamDefUnion::ColorDef(ColorDef::new()));
    assert_eq!(def.param_type, ParamType::Color);
    def.param(ParamDefUnion::ButtonDef(ButtonDef::new()));
    assert_eq!(def.param_type, ParamType::Button);
    def.param(ParamDefUnion::FloatSliderDef(FloatSliderDef::new()));
    assert_eq!(def.param_type, ParamType::FloatSlider);
    def.param(ParamDefUnion::PopupDef(PopupDef::new()));
    assert_eq!(def.param_type, ParamType::PopUp);
    def.param(ParamDefUnion::ArbitraryDef(ArbitraryDef::new()));
    assert_eq!(def.param_type, ParamType::ArbitraryData);
    def.param_type(ParamType::NoData);
    assert_eq!(def.param_type, ParamType::NoData);
}

#[test]
fn popup_names_join_with_pipes() {
    let mut popup = PopupDef::new();
    popup.names(&vec![
        String::from("list"),
        String::from("of"),
        String::from("choices"),
    ]);
    assert_eq!(popup.names, "list|of|choices|");
    assert_eq!(popup.num_choices, 3);
    popup.value(2);
    assert_eq!(popup.get(), 2);
}

#[test]
fn checkbox_value_is_nonzero() {
    let mut cb = CheckBoxDef::new();
    assert!(!cb.get());
    cb.value(2);
    assert!(cb.get());
    cb.label(String::from("Enabled"));
    assert_eq!(cb.label, "Enabled");
    cb.default(true);
    assert!(cb.dephault);
}

#[test]
fn slider_builder_fields() {
    let mut s = SliderDef::new();
    s.value(5);
    s.default(1);
    s.valid_min(-10);
    s.valid_max(10);
    s.slider_min(0);
    s.slider_max(8);
    assert_eq!(s.get(), 5);
    assert_eq!(
        (s.dephault, s.valid_min, s.valid_max, s.slider_min, s.slider_max),
        (1, -10, 10, 0, 8)
    );
}

#[test]
fn float_slider_display_fields() {
    let mut f = FloatSliderDef::new();
    f.display_flags(ValueDisplayFlag::percent().or(ValueDisplayFlag::reverse()));
    f.precision(2);
    assert_eq!(f.display_flags, 9);
    assert_eq!(f.precision, 2);
}

#[test]
fn color_def_holds_pixels() {
    let mut c = ColorDef::new();
    let red = Pixel { alpha: 255, red: 255, green: 0, blue: 0 };
    c.value(red);
    c.default(red);
    assert_eq!(c.get(), red);
    assert_eq!(c.dephault, red);
}

#[test]
fn arbitrary_def_owns_its_default_handle() {
    let mut store = ByteStore::with_limit(4);
    let fh = FlatHandle::new(&mut store, vec![0, 0, 0, 0]).unwrap();
    let raw = fh.as_raw();
    let def = ArbitraryDef::new().default(fh).refcon(0x5150).finalize();
    assert_eq!(def.dephault, Some(raw));
    assert!(def.has_refcon(0x5150));
    assert!(!def.has_refcon(1));
    // The handle's ownership went to the definition: the block is still
    // live for the host to take over.
    assert!(store.is_live(raw));
}
