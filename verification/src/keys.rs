//! Keyboard keys and the stable names under which per-key sounds are stored.

use vstd::prelude::*;

verus! {

/// A physical key reported by the global keyboard listener.
///
/// The variants follow a standard QWERTY layout; `Unknown` carries the raw
/// platform key code of a key without a name.
#[derive(Clone, Copy, Debug, PartialEq, Eq)]
pub enum Key {
    Alt,
    AltGr,
    Backspace,
    CapsLock,
    ControlLeft,
    ControlRight,
    Delete,
    DownArrow,
    End,
    Escape,
    F1,
    F10,
    F11,
    F12,
    F2,
    F3,
    F4,
    F5,
    F6,
    F7,
    F8,
    F9,
    Home,
    LeftArrow,
    MetaLeft,
    MetaRight,
    PageDown,
    PageUp,
    Return,
    RightArrow,
    ShiftLeft,
    ShiftRight,
    Space,
    Tab,
    UpArrow,
    PrintScreen,
    ScrollLock,
    Pause,
    NumLock,
    BackQuote,
    Num1,
    Num2,
    Num3,
    Num4,
    Num5,
    Num6,
    Num7,
    Num8,
    Num9,
    Num0,
    Minus,
    Equal,
    KeyQ,
    KeyW,
    KeyE,
    KeyR,
    KeyT,
    KeyY,
    KeyU,
    KeyI,
    KeyO,
    KeyP,
    LeftBracket,
    RightBracket,
    KeyA,
    KeyS,
    KeyD,
    KeyF,
    KeyG,
    KeyH,
    KeyJ,
    KeyK,
    KeyL,
    SemiColon,
    Quote,
    BackSlash,
    IntlBackslash,
    KeyZ,
    KeyX,
    KeyC,
    KeyV,
    KeyB,
    KeyN,
    KeyM,
    Comma,
    Dot,
    Slash,
    Insert,
    KpReturn,
    KpMinus,
    KpPlus,
    KpMultiply,
    KpDivide,
    Kp0,
    Kp1,
    Kp2,
    Kp3,
    Kp4,
    Kp5,
    Kp6,
    Kp7,
    Kp8,
    Kp9,
    KpDelete,
    Function,
    Unknown(u32),
}

/// Message sent from the keyboard listener to the application.
#[derive(Clone, Debug)]
pub enum KeyMessage {
    KeyPressed(String),
}

/// The character of a decimal digit.
pub open spec fn digit_char(d: nat) -> char {
    if d == 0 { '0' } else if d == 1 { '1' } else if d == 2 { '2' } else if d == 3 { '3' }
    else if d == 4 { '4' } else if d == 5 { '5' } else if d == 6 { '6' } else if d == 7 { '7' }
    else if d == 8 { '8' } else { '9' }
}

/// The decimal notation of a natural number, without sign or leading zeros.
pub open spec fn decimal(n: nat) -> Seq<char>
    decreases n,
{
    if n < 10 {
        seq![digit_char(n)]
    } else {
        decimal(n / 10).push(digit_char(n % 10))
    }
}

/// The stable name of a key: the names used in the configuration file.
pub open spec fn key_name(key: Key) -> Seq<char> {
    match key {
        Key::Alt => "Alt"@,
        Key::AltGr => "AltGr"@,
        Key::Backspace => "Backspace"@,
        Key::CapsLock => "CapsLock"@,
        Key::ControlLeft => "ControlLeft"@,
        Key::ControlRight => "ControlRight"@,
        Key::Delete => "Delete"@,
        Key::DownArrow => "DownArrow"@,
        Key::End => "End"@,
        Key::Escape => "Escape"@,
        Key::F1 => "F1"@,
        Key::F10 => "F10"@,
        Key::F11 => "F11"@,
        Key::F12 => "F12"@,
        Key::F2 => "F2"@,
        Key::F3 => "F3"@,
        Key::F4 => "F4"@,
        Key::F5 => "F5"@,
        Key::F6 => "F6"@,
        Key::F7 => "F7"@,
        Key::F8 => "F8"@,
        Key::F9 => "F9"@,
        Key::Home => "Home"@,
        Key::LeftArrow => "LeftArrow"@,
        Key::MetaLeft => "MetaLeft"@,
        Key::MetaRight => "MetaRight"@,
        Key::PageDown => "PageDown"@,
        Key::PageUp => "PageUp"@,
        Key::Return => "Return"@,
        Key::RightArrow => "RightArrow"@,
        Key::ShiftLeft => "ShiftLeft"@,
        Key::ShiftRight => "ShiftRight"@,
        Key::Space => "Space"@,
        Key::Tab => "Tab"@,
        Key::UpArrow => "UpArrow"@,
        Key::PrintScreen => "PrintScreen"@,
        Key::ScrollLock => "ScrollLock"@,
        Key::Pause => "Pause"@,
        Key::NumLock => "NumLock"@,
        Key::BackQuote => "BackQuote"@,
        Key::Num1 => "1"@,
        Key::Num2 => "2"@,
        Key::Num3 => "3"@,
        Key::Num4 => "4"@,
        Key::Num5 => "5"@,
        Key::Num6 => "6"@,
        Key::Num7 => "7"@,
        Key::Num8 => "8"@,
        Key::Num9 => "9"@,
        Key::Num0 => "0"@,
        Key::Minus => "Minus"@,
        Key::Equal => "Equal"@,
        Key::KeyQ => "KeyQ"@,
        Key::KeyW => "KeyW"@,
        Key::KeyE => "KeyE"@,
        Key::KeyR => "KeyR"@,
        Key::KeyT => "KeyT"@,
        Key::KeyY => "KeyY"@,
        Key::KeyU => "KeyU"@,
        Key::KeyI => "KeyI"@,
        Key::KeyO => "KeyO"@,
        Key::KeyP => "KeyP"@,
        Key::LeftBracket => "LeftBracket"@,
        Key::RightBracket => "RightBracket"@,
        Key::KeyA => "KeyA"@,
        Key::KeyS => "KeyS"@,
        Key::KeyD => "KeyD"@,
        Key::KeyF => "KeyF"@,
        Key::KeyG => "KeyG"@,
        Key::KeyH => "KeyH"@,
        Key::KeyJ => "KeyJ"@,
        Key::KeyK => "KeyK"@,
        Key::KeyL => "KeyL"@,
        Key::SemiColon => "SemiColon"@,
        Key::Quote => "Quote"@,
        Key::BackSlash => "BackSlash"@,
        Key::IntlBackslash => "IntlBackslash"@,
        Key::KeyZ => "KeyZ"@,
        Key::KeyX => "KeyX"@,
        Key::KeyC => "KeyC"@,
        Key::KeyV => "KeyV"@,
        Key::KeyB => "KeyB"@,
        Key::KeyN => "KeyN"@,
        Key::KeyM => "KeyM"@,
        Key::Comma => "Comma"@,
        Key::Dot => "Dot"@,
        Key::Slash => "Slash"@,
        Key::Insert => "Insert"@,
        Key::KpReturn => "KpReturn"@,
        Key::KpMinus => "KpMinus"@,
        Key::KpPlus => "KpPlus"@,
        Key::KpMultiply => "KpMultiply"@,
        Key::KpDivide => "KpDivide"@,
        Key::Kp0 => "Kp0"@,
        Key::Kp1 => "Kp1"@,
        Key::Kp2 => "Kp2"@,
        Key::Kp3 => "Kp3"@,
        Key::Kp4 => "Kp4"@,
        Key::Kp5 => "Kp5"@,
        Key::Kp6 => "Kp6"@,
        Key::Kp7 => "Kp7"@,
        Key::Kp8 => "Kp8"@,
        Key::Kp9 => "Kp9"@,
        Key::KpDelete => "KpDelete"@,
        Key::Function => "Function"@,
        Key::Unknown(code) => "Unknown("@ + decimal(code as nat) + ")"@,
    }
}

proof fn lemma_decimal_nonempty(n: nat)
    ensures
        decimal(n).len() >= 1,
        n >= 10 ==> decimal(n).len() >= 2,
    decreases n,
{
    if n >= 10 {
        lemma_decimal_nonempty(n / 10);
    }
}

/// The number that a string of decimal digits denotes, most significant
/// digit first.
pub open spec fn digits_value(s: Seq<char>) -> int
    decreases s.len(),
{
    if s.len() == 0 {
        0
    } else {
        digits_value(s.drop_last()) * 10 + ((s.last() as int) - ('0' as int))
    }
}

proof fn lemma_digit_char(d: nat)
    requires
        d < 10,
    ensures
        (digit_char(d) as int) - ('0' as int) == d,
        '0' <= digit_char(d) <= '9',
{
}

/// The decimal notation of `n` consists of digits, starts with a nonzero
/// digit unless `n` is zero, and denotes `n`.
pub proof fn decimal_denotes(n: nat)
    ensures
        digits_value(decimal(n)) == n,
        forall|i: int| 0 <= i < decimal(n).len() ==> '0' <= #[trigger] decimal(n)[i] <= '9',
        decimal(n).len() >= 1,
        n > 0 ==> decimal(n)[0] != '0',
    decreases n,
{
    lemma_digit_char(n % 10);
    if n < 10 {
        assert(decimal(n).drop_last() =~= Seq::<char>::empty());
        assert(digits_value(Seq::<char>::empty()) == 0);
        assert(decimal(n).last() == digit_char(n));
        assert(digits_value(decimal(n)) == digits_value(decimal(n).drop_last()) * 10 + ((decimal(n).last() as int) - ('0' as int)));
    } else {
        decimal_denotes(n / 10);
        let d = decimal(n);
        assert(d.drop_last() =~= decimal(n / 10));
        assert(n == (n / 10) * 10 + n % 10);
        assert(d.last() == digit_char(n % 10));
        assert(digits_value(d) == digits_value(d.drop_last()) * 10 + ((d.last() as int) - ('0' as int)));
        assert forall|i: int| 0 <= i < d.len() implies '0' <= #[trigger] d[i] <= '9' by {
            if i < d.len() - 1 {
                assert(d[i] == decimal(n / 10)[i]);
            }
        }
        assert(d[0] == decimal(n / 10)[0]);
    }
}

/// Distinct numbers have distinct decimal notations.
proof fn lemma_decimal_injective(m: nat, n: nat)
    requires
        decimal(m) == decimal(n),
    ensures
        m == n,
    decreases n,
{
    lemma_decimal_nonempty(m);
    lemma_decimal_nonempty(n);
    if m >= 10 && n >= 10 {
        let dm = decimal(m);
        let dn = decimal(n);
        assert(dm.last() == digit_char(m % 10));
        assert(dn.last() == digit_char(n % 10));
        assert(dm.drop_last() == decimal(m / 10));
        assert(dn.drop_last() == decimal(n / 10));
        lemma_decimal_injective(m / 10, n / 10);
        assert(m % 10 == n % 10);
        assert(m == (m / 10) * 10 + m % 10);
        assert(n == (n / 10) * 10 + n % 10);
    } else if m < 10 && n < 10 {
        assert(decimal(m)[0] == digit_char(m));
        assert(decimal(n)[0] == digit_char(n));
    }
}

/// The name of an unknown key: "Unknown(", the code in decimal, ")".
pub(crate) proof fn lemma_unknown_name(code: u32)
    ensures
        key_name(Key::Unknown(code)).len() >= 10,
        key_name(Key::Unknown(code))[0] == 'U',
        key_name(Key::Unknown(code))[1] == 'n',
{
    reveal_strlit("Unknown(");
    reveal_strlit(")");
    lemma_decimal_nonempty(code as nat);
}

/// Unknown keys with different codes have different names.
pub(crate) proof fn lemma_unknown_names_distinct(a: u32, b: u32)
    requires
        key_name(Key::Unknown(a)) == key_name(Key::Unknown(b)),
    ensures
        a == b,
{
    let p = "Unknown("@;
    let s = ")"@;
    let na = key_name(Key::Unknown(a));
    let da = decimal(a as nat);
    let db = decimal(b as nat);
    assert(na == p + da + s);
    assert((p + da + s).subrange(p.len() as int, (p.len() + da.len()) as int) =~= da);
    assert((p + db + s).subrange(p.len() as int, (p.len() + db.len()) as int) =~= db);
    assert(da.len() == db.len());
    lemma_decimal_injective(a as nat, b as nat);
}

/// The one-character string of a decimal digit.
fn digit_str(d: u32) -> (s: &'static str)
    requires
        d < 10,
    ensures
        s@ == seq![digit_char(d as nat)],
{
    proof {
        reveal_strlit("0"); reveal_strlit("1"); reveal_strlit("2"); reveal_strlit("3");
        reveal_strlit("4"); reveal_strlit("5"); reveal_strlit("6"); reveal_strlit("7");
        reveal_strlit("8"); reveal_strlit("9");
    }
    if d == 0 { "0" } else if d == 1 { "1" } else if d == 2 { "2" } else if d == 3 { "3" }
    else if d == 4 { "4" } else if d == 5 { "5" } else if d == 6 { "6" } else if d == 7 { "7" }
    else if d == 8 { "8" } else { "9" }
}

/// Writes `n` in decimal notation.
pub fn decimal_string(n: u32) -> (s: String)
    ensures
        s@ == decimal(n as nat),
    decreases n,
{
    if n < 10 {
        String::from_str(digit_str(n))
    } else {
        let mut s = decimal_string(n / 10);
        s.append(digit_str(n % 10));
        s
    }
}

/// Converts a key to the stable string name used for config mapping.
pub fn key_to_string(key: Key) -> (name: String)
    ensures
        name@ == key_name(key),
{
    match key {
        Key::Alt => String::from_str("Alt"),
        Key::AltGr => String::from_str("AltGr"),
        Key::Backspace => String::from_str("Backspace"),
        Key::CapsLock => String::from_str("CapsLock"),
        Key::ControlLeft => String::from_str("ControlLeft"),
        Key::ControlRight => String::from_str("ControlRight"),
        Key::Delete => String::from_str("Delete"),
        Key::DownArrow => String::from_str("DownArrow"),
        Key::End => String::from_str("End"),
        Key::Escape => String::from_str("Escape"),
        Key::F1 => String::from_str("F1"),
        Key::F10 => String::from_str("F10"),
        Key::F11 => String::from_str("F11"),
        Key::F12 => String::from_str("F12"),
        Key::F2 => String::from_str("F2"),
        Key::F3 => String::from_str("F3"),
        Key::F4 => String::from_str("F4"),
        Key::F5 => String::from_str("F5"),
        Key::F6 => String::from_str("F6"),
        Key::F7 => String::from_str("F7"),
        Key::F8 => String::from_str("F8"),
        Key::F9 => String::from_str("F9"),
        Key::Home => String::from_str("Home"),
        Key::LeftArrow => String::from_str("LeftArrow"),
        Key::MetaLeft => String::from_str("MetaLeft"),
        Key::MetaRight => String::from_str("MetaRight"),
        Key::PageDown => String::from_str("PageDown"),
        Key::PageUp => String::from_str("PageUp"),
        Key::Return => String::from_str("Return"),
        Key::RightArrow => String::from_str("RightArrow"),
        Key::ShiftLeft => String::from_str("ShiftLeft"),
        Key::ShiftRight => String::from_str("ShiftRight"),
        Key::Space => String::from_str("Space"),
        Key::Tab => String::from_str("Tab"),
        Key::UpArrow => String::from_str("UpArrow"),
        Key::PrintScreen => String::from_str("PrintScreen"),
        Key::ScrollLock => String::from_str("ScrollLock"),
        Key::Pause => String::from_str("Pause"),
        Key::NumLock => String::from_str("NumLock"),
        Key::BackQuote => String::from_str("BackQuote"),
        Key::Num1 => String::from_str("1"),
        Key::Num2 => String::from_str("2"),
        Key::Num3 => String::from_str("3"),
        Key::Num4 => String::from_str("4"),
        Key::Num5 => String::from_str("5"),
        Key::Num6 => String::from_str("6"),
        Key::Num7 => String::from_str("7"),
        Key::Num8 => String::from_str("8"),
        Key::Num9 => String::from_str("9"),
        Key::Num0 => String::from_str("0"),
        Key::Minus => String::from_str("Minus"),
        Key::Equal => String::from_str("Equal"),
        Key::KeyQ => String::from_str("KeyQ"),
        Key::KeyW => String::from_str("KeyW"),
        Key::KeyE => String::from_str("KeyE"),
        Key::KeyR => String::from_str("KeyR"),
        Key::KeyT => String::from_str("KeyT"),
        Key::KeyY => String::from_str("KeyY"),
        Key::KeyU => String::from_str("KeyU"),
        Key::KeyI => String::from_str("KeyI"),
        Key::KeyO => String::from_str("KeyO"),
        Key::KeyP => String::from_str("KeyP"),
        Key::LeftBracket => String::from_str("LeftBracket"),
        Key::RightBracket => String::from_str("RightBracket"),
        Key::KeyA => String::from_str("KeyA"),
        Key::KeyS => String::from_str("KeyS"),
        Key::KeyD => String::from_str("KeyD"),
        Key::KeyF => String::from_str("KeyF"),
        Key::KeyG => String::from_str("KeyG"),
        Key::KeyH => String::from_str("KeyH"),
        Key::KeyJ => String::from_str("KeyJ"),
        Key::KeyK => String::from_str("KeyK"),
        Key::KeyL => String::from_str("KeyL"),
        Key::SemiColon => String::from_str("SemiColon"),
        Key::Quote => String::from_str("Quote"),
        Key::BackSlash => String::from_str("BackSlash"),
        Key::IntlBackslash => String::from_str("IntlBackslash"),
        Key::KeyZ => String::from_str("KeyZ"),
        Key::KeyX => String::from_str("KeyX"),
        Key::KeyC => String::from_str("KeyC"),
        Key::KeyV => String::from_str("KeyV"),
        Key::KeyB => String::from_str("KeyB"),
        Key::KeyN => String::from_str("KeyN"),
        Key::KeyM => String::from_str("KeyM"),
        Key::Comma => String::from_str("Comma"),
        Key::Dot => String::from_str("Dot"),
        Key::Slash => String::from_str("Slash"),
        Key::Insert => String::from_str("Insert"),
        Key::KpReturn => String::from_str("KpReturn"),
        Key::KpMinus => String::from_str("KpMinus"),
        Key::KpPlus => String::from_str("KpPlus"),
        Key::KpMultiply => String::from_str("KpMultiply"),
        Key::KpDivide => String::from_str("KpDivide"),
        Key::Kp0 => String::from_str("Kp0"),
        Key::Kp1 => String::from_str("Kp1"),
        Key::Kp2 => String::from_str("Kp2"),
        Key::Kp3 => String::from_str("Kp3"),
        Key::Kp4 => String::from_str("Kp4"),
        Key::Kp5 => String::from_str("Kp5"),
        Key::Kp6 => String::from_str("Kp6"),
        Key::Kp7 => String::from_str("Kp7"),
        Key::Kp8 => String::from_str("Kp8"),
        Key::Kp9 => String::from_str("Kp9"),
        Key::KpDelete => String::from_str("KpDelete"),
        Key::Function => String::from_str("Function"),
        Key::Unknown(code) => {
            let mut name = String::from_str("Unknown(");
            let digits = decimal_string(code);
            name.append(digits.as_str());
            name.append(")");
            name
        },
    }
}

/// The message the keyboard listener sends for a key press.
pub fn key_message(key: Key) -> (msg: KeyMessage)
    ensures
        msg matches KeyMessage::KeyPressed(name) && name@ == key_name(key),
{
    KeyMessage::KeyPressed(key_to_string(key))
}

} // verus!
