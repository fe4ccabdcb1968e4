use vstd::prelude::*;

verus! {

/// Fixed-point scale of `Settings::trigger_area`: the side length is kept in
/// thousandths of a pixel.
pub const AREA_SCALE: u32 = 1000;

/// Keyboard keys that can serve as an activation key.
#[derive(Clone, Copy, PartialEq, Eq, Structural, Debug, Hash)]
pub enum Keycode {
    LShift,
    RShift,
    LControl,
    RControl,
    LAlt,
    RAlt,
    A,
    B,
    C,
    D,
    E,
    F,
    G,
    H,
    I,
    J,
    K,
    L,
    M,
    N,
    O,
    P,
    Q,
    R,
    S,
    T,
    U,
    V,
    W,
    X,
    Y,
    Z,
}

/// Mouse buttons that can serve as an activation button.
#[derive(Clone, Copy, PartialEq, Eq, Structural, Debug, Hash)]
pub enum MouseButton {
    LeftButton,
    MiddleButton,
    RightButton,
    X1Button,
    X2Button,
}

/// A key or button whose being held activates the trigger.
#[derive(Clone, Copy, PartialEq, Eq, Structural, Debug, Hash)]
pub enum TriggerKey {
    Keyboard(Keycode),
    Mouse(MouseButton),
}

/// Screen resolution in pixels.
#[derive(Clone, Copy, PartialEq, Eq, Structural, Debug)]
pub struct Resolution {
    pub width: u32,
    pub height: u32,
}

/// The character of a decimal digit.
pub open spec fn digit_char(d: nat) -> char {
    if d == 0 {
        '0'
    } else if d == 1 {
        '1'
    } else if d == 2 {
        '2'
    } else if d == 3 {
        '3'
    } else if d == 4 {
        '4'
    } else if d == 5 {
        '5'
    } else if d == 6 {
        '6'
    } else if d == 7 {
        '7'
    } else if d == 8 {
        '8'
    } else {
        '9'
    }
}

/// The decimal digits of `n`, most significant first, without leading zeros.
pub open spec fn decimal(n: nat) -> Seq<char>
    decreases n,
{
    if n < 10 {
        seq![digit_char(n)]
    } else {
        decimal(n / 10).push(digit_char(n % 10))
    }
}

/// The label of a resolution: its width and height in decimal, joined by `x`.
pub open spec fn resolution_label(r: Resolution) -> Seq<char> {
    decimal(r.width as nat) + seq!['x'] + decimal(r.height as nat)
}

fn digit_str(d: u32) -> (r: &'static str)
    requires
        d < 10,
    ensures
        r@ == seq![digit_char(d as nat)],
{
    proof {
        reveal_strlit("0");
        reveal_strlit("1");
        reveal_strlit("2");
        reveal_strlit("3");
        reveal_strlit("4");
        reveal_strlit("5");
        reveal_strlit("6");
        reveal_strlit("7");
        reveal_strlit("8");
        reveal_strlit("9");
    }
    let r = match d {
        0 => "0",
        1 => "1",
        2 => "2",
        3 => "3",
        4 => "4",
        5 => "5",
        6 => "6",
        7 => "7",
        8 => "8",
        9 => "9",
        _ => "9",
    };
    assert(r@ =~= seq![digit_char(d as nat)]);
    r
}

fn push_decimal(s: &mut String, n: u32)
    ensures
        final(s)@ == old(s)@ + decimal(n as nat),
    decreases n,
{
    if n >= 10 {
        push_decimal(s, n / 10);
    }
    s.append(digit_str(n % 10));
    proof {
        if n >= 10 {
            assert(old(s)@ + decimal((n / 10) as nat) + seq![digit_char((n % 10) as nat)]
                =~= old(s)@ + decimal(n as nat));
        } else {
            assert(old(s)@ + seq![digit_char(n as nat)] =~= old(s)@ + decimal(n as nat));
        }
    }
}

impl Resolution {
    /// The resolution as `WIDTHxHEIGHT`, for example `3840x2160`.
    pub fn label(&self) -> (r: String)
        ensures
            r@ == resolution_label(*self),
    {
        let mut s = String::new();
        push_decimal(&mut s, self.width);
        proof {
            reveal_strlit("x");
        }
        s.append("x");
        push_decimal(&mut s, self.height);
        assert(s@ =~= resolution_label(*self));
        s
    }
}

/// Why a configuration was rejected.
#[derive(Clone, Copy, PartialEq, Eq, Structural, Debug)]
pub enum ConfigError {
    /// A resolution with a zero width or height.
    ZeroResolution,
    /// A trigger area whose side is zero.
    ZeroArea,
    /// A negative color tolerance.
    NegativeTolerance,
}

/// The configuration of the trigger.
pub struct Settings {
    pub resolution: Resolution,
    /// Keys and buttons of which any one, held, activates the trigger.
    pub trigger_keys: Vec<TriggerKey>,
    /// Pause after firing, in milliseconds.
    pub trigger_delay: u64,
    /// Side of the square scan region at `resolution`, in thousandths of a pixel.
    pub trigger_area: u32,
    /// Target color, one value per red, green and blue channel.
    pub target_color: [i32; 3],
    /// Largest allowed absolute difference on each channel.
    pub color_tolerance: i32,
    /// Whether the trigger is active whatever keys are held.
    pub always_open: bool,
}

/// Which error, if any, a configuration is rejected with.
pub open spec fn config_error(s: &Settings) -> Option<ConfigError> {
    config_error_of(s.resolution, s.trigger_area, s.color_tolerance)
}

/// Which error, if any, these values of the checked fields give.
pub open spec fn config_error_of(res: Resolution, area: u32, tolerance: i32) -> Option<
    ConfigError,
> {
    if res.width == 0 || res.height == 0 {
        Some(ConfigError::ZeroResolution)
    } else if area == 0 {
        Some(ConfigError::ZeroArea)
    } else if tolerance < 0 {
        Some(ConfigError::NegativeTolerance)
    } else {
        None
    }
}

pub open spec fn settings_valid(s: &Settings) -> bool {
    config_error(s) is None
}

/// The baseline configuration, field by field.
pub open spec fn is_default_spec(s: &Settings) -> bool {
    &&& s.resolution == Resolution { width: 3840, height: 2160 }
    &&& s.trigger_keys@ == seq![TriggerKey::Keyboard(Keycode::LShift)]
    &&& s.trigger_delay == 50
    &&& s.trigger_area == 10 * AREA_SCALE
    &&& s.target_color@ == seq![240i32, 90i32, 255i32]
    &&& s.color_tolerance == 50
    &&& !s.always_open
}

/// Field-by-field equality of two configurations.
pub open spec fn settings_eq(a: &Settings, b: &Settings) -> bool {
    &&& a.resolution == b.resolution
    &&& a.trigger_keys@ == b.trigger_keys@
    &&& a.trigger_delay == b.trigger_delay
    &&& a.trigger_area == b.trigger_area
    &&& a.target_color@ == b.target_color@
    &&& a.color_tolerance == b.color_tolerance
    &&& a.always_open == b.always_open
}

impl Default for Settings {
    fn default() -> (r: Settings)
        ensures
            is_default_spec(&r),
            settings_valid(&r),
    {
        let mut keys: Vec<TriggerKey> = Vec::new();
        keys.push(TriggerKey::Keyboard(Keycode::LShift));
        let r = Settings {
            resolution: Resolution { width: 3840, height: 2160 },
            trigger_keys: keys,
            trigger_delay: 50,
            trigger_area: 10 * AREA_SCALE,
            target_color: [240, 90, 255],
            color_tolerance: 50,
            always_open: false,
        };
        assert(r.trigger_keys@ =~= seq![TriggerKey::Keyboard(Keycode::LShift)]);
        assert(r.target_color@ =~= seq![240i32, 90i32, 255i32]);
        r
    }
}

fn keys_eq(a: &Vec<TriggerKey>, b: &Vec<TriggerKey>) -> (r: bool)
    ensures
        r == (a@ == b@),
{
    if a.len() != b.len() {
        return false;
    }
    let mut i: usize = 0;
    while i < a.len()
        invariant
            a@.len() == b@.len(),
            i <= a@.len(),
            forall|j: int| 0 <= j < i ==> a@[j] == b@[j],
        decreases a@.len() - i,
    {
        if a[i] != b[i] {
            return false;
        }
        i += 1;
    }
    assert(a@ =~= b@);
    true
}

impl PartialEq for Settings {
    fn eq(&self, other: &Settings) -> (r: bool)
        ensures
            r == settings_eq(self, other),
    {
        let same_color = self.target_color[0] == other.target_color[0]
            && self.target_color[1] == other.target_color[1]
            && self.target_color[2] == other.target_color[2];
        assert(same_color ==> self.target_color@ =~= other.target_color@);
        self.resolution == other.resolution
            && keys_eq(&self.trigger_keys, &other.trigger_keys)
            && self.trigger_delay == other.trigger_delay
            && self.trigger_area == other.trigger_area
            && same_color
            && self.color_tolerance == other.color_tolerance
            && self.always_open == other.always_open
    }
}

impl vstd::std_specs::cmp::PartialEqSpecImpl for Settings {
    open spec fn obeys_eq_spec() -> bool {
        true
    }

    open spec fn eq_spec(&self, other: &Settings) -> bool {
        settings_eq(self, other)
    }
}

/// Checks a configuration, naming the first rule it breaks.
pub fn validate(s: &Settings) -> (r: Result<(), ConfigError>)
    ensures
        r is Ok <==> settings_valid(s),
        r matches Err(e) ==> config_error(s) == Some(e),
{
    if s.resolution.width == 0 || s.resolution.height == 0 {
        Err(ConfigError::ZeroResolution)
    } else if s.trigger_area == 0 {
        Err(ConfigError::ZeroArea)
    } else if s.color_tolerance < 0 {
        Err(ConfigError::NegativeTolerance)
    } else {
        Ok(())
    }
}

} // verus!
