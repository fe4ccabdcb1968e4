use vstd::prelude::*;
use crate::settings::{Keycode, MouseButton, TriggerKey};

verus! {

/// The keys and buttons offered as activation keys, in the order offered.
pub open spec fn selectable_keys() -> Seq<TriggerKey> {
    seq![
        TriggerKey::Mouse(MouseButton::LeftButton),
        TriggerKey::Mouse(MouseButton::MiddleButton),
        TriggerKey::Mouse(MouseButton::RightButton),
        TriggerKey::Mouse(MouseButton::X1Button),
        TriggerKey::Mouse(MouseButton::X2Button),
        TriggerKey::Keyboard(Keycode::LShift),
        TriggerKey::Keyboard(Keycode::RShift),
        TriggerKey::Keyboard(Keycode::LControl),
        TriggerKey::Keyboard(Keycode::RControl),
        TriggerKey::Keyboard(Keycode::LAlt),
        TriggerKey::Keyboard(Keycode::RAlt),
        TriggerKey::Keyboard(Keycode::A),
        TriggerKey::Keyboard(Keycode::F),
        TriggerKey::Keyboard(Keycode::B),
        TriggerKey::Keyboard(Keycode::G),
        TriggerKey::Keyboard(Keycode::C),
        TriggerKey::Keyboard(Keycode::H),
        TriggerKey::Keyboard(Keycode::D),
        TriggerKey::Keyboard(Keycode::I),
        TriggerKey::Keyboard(Keycode::E),
        TriggerKey::Keyboard(Keycode::J),
        TriggerKey::Keyboard(Keycode::K),
        TriggerKey::Keyboard(Keycode::P),
        TriggerKey::Keyboard(Keycode::L),
        TriggerKey::Keyboard(Keycode::Q),
        TriggerKey::Keyboard(Keycode::M),
        TriggerKey::Keyboard(Keycode::R),
        TriggerKey::Keyboard(Keycode::N),
        TriggerKey::Keyboard(Keycode::S),
        TriggerKey::Keyboard(Keycode::O),
        TriggerKey::Keyboard(Keycode::T),
        TriggerKey::Keyboard(Keycode::U),
        TriggerKey::Keyboard(Keycode::Z),
        TriggerKey::Keyboard(Keycode::V),
        TriggerKey::Keyboard(Keycode::Y),
        TriggerKey::Keyboard(Keycode::W),
        TriggerKey::Keyboard(Keycode::X),
    ]
}

/// The label shown for a key or button.
pub open spec fn display_name(k: TriggerKey) -> Seq<char> {
    match k {
        TriggerKey::Mouse(MouseButton::LeftButton) => "Mouse Left"@,
        TriggerKey::Mouse(MouseButton::MiddleButton) => "Mouse Middle (Wheel)"@,
        TriggerKey::Mouse(MouseButton::RightButton) => "Mouse Right"@,
        TriggerKey::Mouse(MouseButton::X1Button) => "Mouse Backward (X1)"@,
        TriggerKey::Mouse(MouseButton::X2Button) => "Mouse Forward (X2)"@,
        TriggerKey::Keyboard(Keycode::LShift) => "Left Shift"@,
        TriggerKey::Keyboard(Keycode::RShift) => "Right Shift"@,
        TriggerKey::Keyboard(Keycode::LControl) => "Left Control"@,
        TriggerKey::Keyboard(Keycode::RControl) => "Right Control"@,
        TriggerKey::Keyboard(Keycode::LAlt) => "Left Alt"@,
        TriggerKey::Keyboard(Keycode::RAlt) => "Right Alt"@,
        TriggerKey::Keyboard(Keycode::A) => "A"@,
        TriggerKey::Keyboard(Keycode::B) => "B"@,
        TriggerKey::Keyboard(Keycode::C) => "C"@,
        TriggerKey::Keyboard(Keycode::D) => "D"@,
        TriggerKey::Keyboard(Keycode::E) => "E"@,
        TriggerKey::Keyboard(Keycode::F) => "F"@,
        TriggerKey::Keyboard(Keycode::G) => "G"@,
        TriggerKey::Keyboard(Keycode::H) => "H"@,
        TriggerKey::Keyboard(Keycode::I) => "I"@,
        TriggerKey::Keyboard(Keycode::J) => "J"@,
        TriggerKey::Keyboard(Keycode::K) => "K"@,
        TriggerKey::Keyboard(Keycode::L) => "L"@,
        TriggerKey::Keyboard(Keycode::M) => "M"@,
        TriggerKey::Keyboard(Keycode::N) => "N"@,
        TriggerKey::Keyboard(Keycode::O) => "O"@,
        TriggerKey::Keyboard(Keycode::P) => "P"@,
        TriggerKey::Keyboard(Keycode::Q) => "Q"@,
        TriggerKey::Keyboard(Keycode::R) => "R"@,
        TriggerKey::Keyboard(Keycode::S) => "S"@,
        TriggerKey::Keyboard(Keycode::T) => "T"@,
        TriggerKey::Keyboard(Keycode::U) => "U"@,
        TriggerKey::Keyboard(Keycode::V) => "V"@,
        TriggerKey::Keyboard(Keycode::W) => "W"@,
        TriggerKey::Keyboard(Keycode::X) => "X"@,
        TriggerKey::Keyboard(Keycode::Y) => "Y"@,
        TriggerKey::Keyboard(Keycode::Z) => "Z"@,
    }
}

/// Builds the list of selectable keys and buttons.
pub(crate) fn selectable_keys_vec() -> (r: Vec<TriggerKey>)
    ensures
        r@ == selectable_keys(),
{
    let mut r: Vec<TriggerKey> = Vec::new();
    r.push(TriggerKey::Mouse(MouseButton::LeftButton));
    r.push(TriggerKey::Mouse(MouseButton::MiddleButton));
    r.push(TriggerKey::Mouse(MouseButton::RightButton));
    r.push(TriggerKey::Mouse(MouseButton::X1Button));
    r.push(TriggerKey::Mouse(MouseButton::X2Button));
    r.push(TriggerKey::Keyboard(Keycode::LShift));
    r.push(TriggerKey::Keyboard(Keycode::RShift));
    r.push(TriggerKey::Keyboard(Keycode::LControl));
    r.push(TriggerKey::Keyboard(Keycode::RControl));
    r.push(TriggerKey::Keyboard(Keycode::LAlt));
    r.push(TriggerKey::Keyboard(Keycode::RAlt));
    r.push(TriggerKey::Keyboard(Keycode::A));
    r.push(TriggerKey::Keyboard(Keycode::F));
    r.push(TriggerKey::Keyboard(Keycode::B));
    r.push(TriggerKey::Keyboard(Keycode::G));
    r.push(TriggerKey::Keyboard(Keycode::C));
    r.push(TriggerKey::Keyboard(Keycode::H));
    r.push(TriggerKey::Keyboard(Keycode::D));
    r.push(TriggerKey::Keyboard(Keycode::I));
    r.push(TriggerKey::Keyboard(Keycode::E));
    r.push(TriggerKey::Keyboard(Keycode::J));
    r.push(TriggerKey::Keyboard(Keycode::K));
    r.push(TriggerKey::Keyboard(Keycode::P));
    r.push(TriggerKey::Keyboard(Keycode::L));
    r.push(TriggerKey::Keyboard(Keycode::Q));
    r.push(TriggerKey::Keyboard(Keycode::M));
    r.push(TriggerKey::Keyboard(Keycode::R));
    r.push(TriggerKey::Keyboard(Keycode::N));
    r.push(TriggerKey::Keyboard(Keycode::S));
    r.push(TriggerKey::Keyboard(Keycode::O));
    r.push(TriggerKey::Keyboard(Keycode::T));
    r.push(TriggerKey::Keyboard(Keycode::U));
    r.push(TriggerKey::Keyboard(Keycode::Z));
    r.push(TriggerKey::Keyboard(Keycode::V));
    r.push(TriggerKey::Keyboard(Keycode::Y));
    r.push(TriggerKey::Keyboard(Keycode::W));
    r.push(TriggerKey::Keyboard(Keycode::X));
    assert(r@ =~= selectable_keys());
    r
}

/// The label of a key or button.
pub(crate) fn label_of(k: &TriggerKey) -> (r: String)
    ensures
        r@ == display_name(*k),
{
    match k {
        TriggerKey::Mouse(MouseButton::LeftButton) => "Mouse Left".to_owned(),
        TriggerKey::Mouse(MouseButton::MiddleButton) => "Mouse Middle (Wheel)".to_owned(),
        TriggerKey::Mouse(MouseButton::RightButton) => "Mouse Right".to_owned(),
        TriggerKey::Mouse(MouseButton::X1Button) => "Mouse Backward (X1)".to_owned(),
        TriggerKey::Mouse(MouseButton::X2Button) => "Mouse Forward (X2)".to_owned(),
        TriggerKey::Keyboard(Keycode::LShift) => "Left Shift".to_owned(),
        TriggerKey::Keyboard(Keycode::RShift) => "Right Shift".to_owned(),
        TriggerKey::Keyboard(Keycode::LControl) => "Left Control".to_owned(),
        TriggerKey::Keyboard(Keycode::RControl) => "Right Control".to_owned(),
        TriggerKey::Keyboard(Keycode::LAlt) => "Left Alt".to_owned(),
        TriggerKey::Keyboard(Keycode::RAlt) => "Right Alt".to_owned(),
        TriggerKey::Keyboard(Keycode::A) => "A".to_owned(),
        TriggerKey::Keyboard(Keycode::B) => "B".to_owned(),
        TriggerKey::Keyboard(Keycode::C) => "C".to_owned(),
        TriggerKey::Keyboard(Keycode::D) => "D".to_owned(),
        TriggerKey::Keyboard(Keycode::E) => "E".to_owned(),
        TriggerKey::Keyboard(Keycode::F) => "F".to_owned(),
        TriggerKey::Keyboard(Keycode::G) => "G".to_owned(),
        TriggerKey::Keyboard(Keycode::H) => "H".to_owned(),
        TriggerKey::Keyboard(Keycode::I) => "I".to_owned(),
        TriggerKey::Keyboard(Keycode::J) => "J".to_owned(),
        TriggerKey::Keyboard(Keycode::K) => "K".to_owned(),
        TriggerKey::Keyboard(Keycode::L) => "L".to_owned(),
        TriggerKey::Keyboard(Keycode::M) => "M".to_owned(),
        TriggerKey::Keyboard(Keycode::N) => "N".to_owned(),
        TriggerKey::Keyboard(Keycode::O) => "O".to_owned(),
        TriggerKey::Keyboard(Keycode::P) => "P".to_owned(),
        TriggerKey::Keyboard(Keycode::Q) => "Q".to_owned(),
        TriggerKey::Keyboard(Keycode::R) => "R".to_owned(),
        TriggerKey::Keyboard(Keycode::S) => "S".to_owned(),
        TriggerKey::Keyboard(Keycode::T) => "T".to_owned(),
        TriggerKey::Keyboard(Keycode::U) => "U".to_owned(),
        TriggerKey::Keyboard(Keycode::V) => "V".to_owned(),
        TriggerKey::Keyboard(Keycode::W) => "W".to_owned(),
        TriggerKey::Keyboard(Keycode::X) => "X".to_owned(),
        TriggerKey::Keyboard(Keycode::Y) => "Y".to_owned(),
        TriggerKey::Keyboard(Keycode::Z) => "Z".to_owned(),
    }
}

} // verus!
