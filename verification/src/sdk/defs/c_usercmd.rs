use vstd::prelude::*;

verus! {

/// The keys and mouse buttons of the engine's input system, numbered from 0:
/// first the keyboard keys (`KeyNone` through `KeyScrollLockToggle`), then the
/// mouse buttons (`MouseLeft` through `MouseWheelDown`).
#[derive(Clone, Copy, PartialEq, Eq, Structural, Debug)]
pub enum ButtonCode {
    KeyNone,
    Key0,
    Key1,
    Key2,
    Key3,
    Key4,
    Key5,
    Key6,
    Key7,
    Key8,
    Key9,
    KeyA,
    KeyB,
    KeyC,
    KeyD,
    KeyE,
    KeyF,
    KeyG,
    KeyH,
    KeyI,
    KeyJ,
    KeyK,
    KeyL,
    KeyM,
    KeyN,
    KeyO,
    KeyP,
    KeyQ,
    KeyR,
    KeyS,
    KeyT,
    KeyU,
    KeyV,
    KeyW,
    KeyX,
    KeyY,
    KeyZ,
    KeyPad0,
    KeyPad1,
    KeyPad2,
    KeyPad3,
    KeyPad4,
    KeyPad5,
    KeyPad6,
    KeyPad7,
    KeyPad8,
    KeyPad9,
    KeyPadDivide,
    KeyPadMultiply,
    KeyPadMinus,
    KeyPadPlus,
    KeyPadEnter,
    KeyPadDecimal,
    KeyLBracket,
    KeyRBracket,
    KeySemicolon,
    KeyApostrophe,
    KeyBackQuote,
    KeyComma,
    KeyPeriod,
    KeySlash,
    KeyBackslash,
    KeyMinus,
    KeyEqual,
    KeyEnter,
    KeySpace,
    KeyBackspace,
    KeyTab,
    KeyCapsLock,
    KeyNumLock,
    KeyEscape,
    KeyScrollLock,
    KeyInsert,
    KeyDelete,
    KeyHome,
    KeyEnd,
    KeyPageUp,
    KeyPageDown,
    KeyBreak,
    KeyLShift,
    KeyRShift,
    KeyLAlt,
    KeyRAlt,
    KeyLControl,
    KeyRControl,
    KeyLWin,
    KeyRWin,
    KeyApp,
    KeyUp,
    KeyLeft,
    KeyDown,
    KeyRight,
    KeyF1,
    KeyF2,
    KeyF3,
    KeyF4,
    KeyF5,
    KeyF6,
    KeyF7,
    KeyF8,
    KeyF9,
    KeyF10,
    KeyF11,
    KeyF12,
    KeyCapsLockToggle,
    KeyNumLockToggle,
    KeyScrollLockToggle,
    MouseLeft,
    MouseRight,
    MouseMiddle,
    Mouse4,
    Mouse5,
    MouseWheelUp,
    MouseWheelDown,
}

/// The number the engine gives a button: its position in the declaration.
pub open spec fn button_code(b: ButtonCode) -> int {
    match b {
        ButtonCode::KeyNone => 0,
        ButtonCode::Key0 => 1,
        ButtonCode::Key1 => 2,
        ButtonCode::Key2 => 3,
        ButtonCode::Key3 => 4,
        ButtonCode::Key4 => 5,
        ButtonCode::Key5 => 6,
        ButtonCode::Key6 => 7,
        ButtonCode::Key7 => 8,
        ButtonCode::Key8 => 9,
        ButtonCode::Key9 => 10,
        ButtonCode::KeyA => 11,
        ButtonCode::KeyB => 12,
        ButtonCode::KeyC => 13,
        ButtonCode::KeyD => 14,
        ButtonCode::KeyE => 15,
        ButtonCode::KeyF => 16,
        ButtonCode::KeyG => 17,
        ButtonCode::KeyH => 18,
        ButtonCode::KeyI => 19,
        ButtonCode::KeyJ => 20,
        ButtonCode::KeyK => 21,
        ButtonCode::KeyL => 22,
        ButtonCode::KeyM => 23,
        ButtonCode::KeyN => 24,
        ButtonCode::KeyO => 25,
        ButtonCode::KeyP => 26,
        ButtonCode::KeyQ => 27,
        ButtonCode::KeyR => 28,
        ButtonCode::KeyS => 29,
        ButtonCode::KeyT => 30,
        ButtonCode::KeyU => 31,
        ButtonCode::KeyV => 32,
        ButtonCode::KeyW => 33,
        ButtonCode::KeyX => 34,
        ButtonCode::KeyY => 35,
        ButtonCode::KeyZ => 36,
        ButtonCode::KeyPad0 => 37,
        ButtonCode::KeyPad1 => 38,
        ButtonCode::KeyPad2 => 39,
        ButtonCode::KeyPad3 => 40,
        ButtonCode::KeyPad4 => 41,
        ButtonCode::KeyPad5 => 42,
        ButtonCode::KeyPad6 => 43,
        ButtonCode::KeyPad7 => 44,
        ButtonCode::KeyPad8 => 45,
        ButtonCode::KeyPad9 => 46,
        ButtonCode::KeyPadDivide => 47,
        ButtonCode::KeyPadMultiply => 48,
        ButtonCode::KeyPadMinus => 49,
        ButtonCode::KeyPadPlus => 50,
        ButtonCode::KeyPadEnter => 51,
        ButtonCode::KeyPadDecimal => 52,
        ButtonCode::KeyLBracket => 53,
        ButtonCode::KeyRBracket => 54,
        ButtonCode::KeySemicolon => 55,
        ButtonCode::KeyApostrophe => 56,
        ButtonCode::KeyBackQuote => 57,
        ButtonCode::KeyComma => 58,
        ButtonCode::KeyPeriod => 59,
        ButtonCode::KeySlash => 60,
        ButtonCode::KeyBackslash => 61,
        ButtonCode::KeyMinus => 62,
        ButtonCode::KeyEqual => 63,
        ButtonCode::KeyEnter => 64,
        ButtonCode::KeySpace => 65,
        ButtonCode::KeyBackspace => 66,
        ButtonCode::KeyTab => 67,
        ButtonCode::KeyCapsLock => 68,
        ButtonCode::KeyNumLock => 69,
        ButtonCode::KeyEscape => 70,
        ButtonCode::KeyScrollLock => 71,
        ButtonCode::KeyInsert => 72,
        ButtonCode::KeyDelete => 73,
        ButtonCode::KeyHome => 74,
        ButtonCode::KeyEnd => 75,
        ButtonCode::KeyPageUp => 76,
        ButtonCode::KeyPageDown => 77,
        ButtonCode::KeyBreak => 78,
        ButtonCode::KeyLShift => 79,
        ButtonCode::KeyRShift => 80,
        ButtonCode::KeyLAlt => 81,
        ButtonCode::KeyRAlt => 82,
        ButtonCode::KeyLControl => 83,
        ButtonCode::KeyRControl => 84,
        ButtonCode::KeyLWin => 85,
        ButtonCode::KeyRWin => 86,
        ButtonCode::KeyApp => 87,
        ButtonCode::KeyUp => 88,
        ButtonCode::KeyLeft => 89,
        ButtonCode::KeyDown => 90,
        ButtonCode::KeyRight => 91,
        ButtonCode::KeyF1 => 92,
        ButtonCode::KeyF2 => 93,
        ButtonCode::KeyF3 => 94,
        ButtonCode::KeyF4 => 95,
        ButtonCode::KeyF5 => 96,
        ButtonCode::KeyF6 => 97,
        ButtonCode::KeyF7 => 98,
        ButtonCode::KeyF8 => 99,
        ButtonCode::KeyF9 => 100,
        ButtonCode::KeyF10 => 101,
        ButtonCode::KeyF11 => 102,
        ButtonCode::KeyF12 => 103,
        ButtonCode::KeyCapsLockToggle => 104,
        ButtonCode::KeyNumLockToggle => 105,
        ButtonCode::KeyScrollLockToggle => 106,
        ButtonCode::MouseLeft => 107,
        ButtonCode::MouseRight => 108,
        ButtonCode::MouseMiddle => 109,
        ButtonCode::Mouse4 => 110,
        ButtonCode::Mouse5 => 111,
        ButtonCode::MouseWheelUp => 112,
        ButtonCode::MouseWheelDown => 113,
    }
}

/// The button with number `i`, where there is one.
pub open spec fn button_of_code(i: i32) -> Option<ButtonCode> {
    match i {
        0 => Some(ButtonCode::KeyNone),
        1 => Some(ButtonCode::Key0),
        2 => Some(ButtonCode::Key1),
        3 => Some(ButtonCode::Key2),
        4 => Some(ButtonCode::Key3),
        5 => Some(ButtonCode::Key4),
        6 => Some(ButtonCode::Key5),
        7 => Some(ButtonCode::Key6),
        8 => Some(ButtonCode::Key7),
        9 => Some(ButtonCode::Key8),
        10 => Some(ButtonCode::Key9),
        11 => Some(ButtonCode::KeyA),
        12 => Some(ButtonCode::KeyB),
        13 => Some(ButtonCode::KeyC),
        14 => Some(ButtonCode::KeyD),
        15 => Some(ButtonCode::KeyE),
        16 => Some(ButtonCode::KeyF),
        17 => Some(ButtonCode::KeyG),
        18 => Some(ButtonCode::KeyH),
        19 => Some(ButtonCode::KeyI),
        20 => Some(ButtonCode::KeyJ),
        21 => Some(ButtonCode::KeyK),
        22 => Some(ButtonCode::KeyL),
        23 => Some(ButtonCode::KeyM),
        24 => Some(ButtonCode::KeyN),
        25 => Some(ButtonCode::KeyO),
        26 => Some(ButtonCode::KeyP),
        27 => Some(ButtonCode::KeyQ),
        28 => Some(ButtonCode::KeyR),
        29 => Some(ButtonCode::KeyS),
        30 => Some(ButtonCode::KeyT),
        31 => Some(ButtonCode::KeyU),
        32 => Some(ButtonCode::KeyV),
        33 => Some(ButtonCode::KeyW),
        34 => Some(ButtonCode::KeyX),
        35 => Some(ButtonCode::KeyY),
        36 => Some(ButtonCode::KeyZ),
        37 => Some(ButtonCode::KeyPad0),
        38 => Some(ButtonCode::KeyPad1),
        39 => Some(ButtonCode::KeyPad2),
        40 => Some(ButtonCode::KeyPad3),
        41 => Some(ButtonCode::KeyPad4),
        42 => Some(ButtonCode::KeyPad5),
        43 => Some(ButtonCode::KeyPad6),
        44 => Some(ButtonCode::KeyPad7),
        45 => Some(ButtonCode::KeyPad8),
        46 => Some(ButtonCode::KeyPad9),
        47 => Some(ButtonCode::KeyPadDivide),
        48 => Some(ButtonCode::KeyPadMultiply),
        49 => Some(ButtonCode::KeyPadMinus),
        50 => Some(ButtonCode::KeyPadPlus),
        51 => Some(ButtonCode::KeyPadEnter),
        52 => Some(ButtonCode::KeyPadDecimal),
        53 => Some(ButtonCode::KeyLBracket),
        54 => Some(ButtonCode::KeyRBracket),
        55 => Some(ButtonCode::KeySemicolon),
        56 => Some(ButtonCode::KeyApostrophe),
        57 => Some(ButtonCode::KeyBackQuote),
        58 => Some(ButtonCode::KeyComma),
        59 => Some(ButtonCode::KeyPeriod),
        60 => Some(ButtonCode::KeySlash),
        61 => Some(ButtonCode::KeyBackslash),
        62 => Some(ButtonCode::KeyMinus),
        63 => Some(ButtonCode::KeyEqual),
        64 => Some(ButtonCode::KeyEnter),
        65 => Some(ButtonCode::KeySpace),
        66 => Some(ButtonCode::KeyBackspace),
        67 => Some(ButtonCode::KeyTab),
        68 => Some(ButtonCode::KeyCapsLock),
        69 => Some(ButtonCode::KeyNumLock),
        70 => Some(ButtonCode::KeyEscape),
        71 => Some(ButtonCode::KeyScrollLock),
        72 => Some(ButtonCode::KeyInsert),
        73 => Some(ButtonCode::KeyDelete),
        74 => Some(ButtonCode::KeyHome),
        75 => Some(ButtonCode::KeyEnd),
        76 => Some(ButtonCode::KeyPageUp),
        77 => Some(ButtonCode::KeyPageDown),
        78 => Some(ButtonCode::KeyBreak),
        79 => Some(ButtonCode::KeyLShift),
        80 => Some(ButtonCode::KeyRShift),
        81 => Some(ButtonCode::KeyLAlt),
        82 => Some(ButtonCode::KeyRAlt),
        83 => Some(ButtonCode::KeyLControl),
        84 => Some(ButtonCode::KeyRControl),
        85 => Some(ButtonCode::KeyLWin),
        86 => Some(ButtonCode::KeyRWin),
        87 => Some(ButtonCode::KeyApp),
        88 => Some(ButtonCode::KeyUp),
        89 => Some(ButtonCode::KeyLeft),
        90 => Some(ButtonCode::KeyDown),
        91 => Some(ButtonCode::KeyRight),
        92 => Some(ButtonCode::KeyF1),
        93 => Some(ButtonCode::KeyF2),
        94 => Some(ButtonCode::KeyF3),
        95 => Some(ButtonCode::KeyF4),
        96 => Some(ButtonCode::KeyF5),
        97 => Some(ButtonCode::KeyF6),
        98 => Some(ButtonCode::KeyF7),
        99 => Some(ButtonCode::KeyF8),
        100 => Some(ButtonCode::KeyF9),
        101 => Some(ButtonCode::KeyF10),
        102 => Some(ButtonCode::KeyF11),
        103 => Some(ButtonCode::KeyF12),
        104 => Some(ButtonCode::KeyCapsLockToggle),
        105 => Some(ButtonCode::KeyNumLockToggle),
        106 => Some(ButtonCode::KeyScrollLockToggle),
        107 => Some(ButtonCode::MouseLeft),
        108 => Some(ButtonCode::MouseRight),
        109 => Some(ButtonCode::MouseMiddle),
        110 => Some(ButtonCode::Mouse4),
        111 => Some(ButtonCode::Mouse5),
        112 => Some(ButtonCode::MouseWheelUp),
        113 => Some(ButtonCode::MouseWheelDown),
        _ => None,
    }
}

/// The span of keyboard keys, from the first key to the last.
pub open spec fn spec_key_count() -> int {
    button_code(ButtonCode::KeyScrollLockToggle) - button_code(ButtonCode::KeyNone) + 1
}

/// The span of mouse buttons, from the first one to the last.
pub open spec fn spec_mouse_count() -> int {
    button_code(ButtonCode::MouseWheelDown) - button_code(ButtonCode::MouseLeft) + 1
}

impl ButtonCode {
    /// The button's number.
    pub fn to_i32(&self) -> (r: i32)
        ensures
            r == button_code(*self),
    {
        match self {
            ButtonCode::KeyNone => 0,
            ButtonCode::Key0 => 1,
            ButtonCode::Key1 => 2,
            ButtonCode::Key2 => 3,
            ButtonCode::Key3 => 4,
            ButtonCode::Key4 => 5,
            ButtonCode::Key5 => 6,
            ButtonCode::Key6 => 7,
            ButtonCode::Key7 => 8,
            ButtonCode::Key8 => 9,
            ButtonCode::Key9 => 10,
            ButtonCode::KeyA => 11,
            ButtonCode::KeyB => 12,
            ButtonCode::KeyC => 13,
            ButtonCode::KeyD => 14,
            ButtonCode::KeyE => 15,
            ButtonCode::KeyF => 16,
            ButtonCode::KeyG => 17,
            ButtonCode::KeyH => 18,
            ButtonCode::KeyI => 19,
            ButtonCode::KeyJ => 20,
            ButtonCode::KeyK => 21,
            ButtonCode::KeyL => 22,
            ButtonCode::KeyM => 23,
            ButtonCode::KeyN => 24,
            ButtonCode::KeyO => 25,
            ButtonCode::KeyP => 26,
            ButtonCode::KeyQ => 27,
            ButtonCode::KeyR => 28,
            ButtonCode::KeyS => 29,
            ButtonCode::KeyT => 30,
            ButtonCode::KeyU => 31,
            ButtonCode::KeyV => 32,
            ButtonCode::KeyW => 33,
            ButtonCode::KeyX => 34,
            ButtonCode::KeyY => 35,
            ButtonCode::KeyZ => 36,
            ButtonCode::KeyPad0 => 37,
            ButtonCode::KeyPad1 => 38,
            ButtonCode::KeyPad2 => 39,
            ButtonCode::KeyPad3 => 40,
            ButtonCode::KeyPad4 => 41,
            ButtonCode::KeyPad5 => 42,
            ButtonCode::KeyPad6 => 43,
            ButtonCode::KeyPad7 => 44,
            ButtonCode::KeyPad8 => 45,
            ButtonCode::KeyPad9 => 46,
            ButtonCode::KeyPadDivide => 47,
            ButtonCode::KeyPadMultiply => 48,
            ButtonCode::KeyPadMinus => 49,
            ButtonCode::KeyPadPlus => 50,
            ButtonCode::KeyPadEnter => 51,
            ButtonCode::KeyPadDecimal => 52,
            ButtonCode::KeyLBracket => 53,
            ButtonCode::KeyRBracket => 54,
            ButtonCode::KeySemicolon => 55,
            ButtonCode::KeyApostrophe => 56,
            ButtonCode::KeyBackQuote => 57,
            ButtonCode::KeyComma => 58,
            ButtonCode::KeyPeriod => 59,
            ButtonCode::KeySlash => 60,
            ButtonCode::KeyBackslash => 61,
            ButtonCode::KeyMinus => 62,
            ButtonCode::KeyEqual => 63,
            ButtonCode::KeyEnter => 64,
            ButtonCode::KeySpace => 65,
            ButtonCode::KeyBackspace => 66,
            ButtonCode::KeyTab => 67,
            ButtonCode::KeyCapsLock => 68,
            ButtonCode::KeyNumLock => 69,
            ButtonCode::KeyEscape => 70,
            ButtonCode::KeyScrollLock => 71,
            ButtonCode::KeyInsert => 72,
            ButtonCode::KeyDelete => 73,
            ButtonCode::KeyHome => 74,
            ButtonCode::KeyEnd => 75,
            ButtonCode::KeyPageUp => 76,
            ButtonCode::KeyPageDown => 77,
            ButtonCode::KeyBreak => 78,
            ButtonCode::KeyLShift => 79,
            ButtonCode::KeyRShift => 80,
            ButtonCode::KeyLAlt => 81,
            ButtonCode::KeyRAlt => 82,
            ButtonCode::KeyLControl => 83,
            ButtonCode::KeyRControl => 84,
            ButtonCode::KeyLWin => 85,
            ButtonCode::KeyRWin => 86,
            ButtonCode::KeyApp => 87,
            ButtonCode::KeyUp => 88,
            ButtonCode::KeyLeft => 89,
            ButtonCode::KeyDown => 90,
            ButtonCode::KeyRight => 91,
            ButtonCode::KeyF1 => 92,
            ButtonCode::KeyF2 => 93,
            ButtonCode::KeyF3 => 94,
            ButtonCode::KeyF4 => 95,
            ButtonCode::KeyF5 => 96,
            ButtonCode::KeyF6 => 97,
            ButtonCode::KeyF7 => 98,
            ButtonCode::KeyF8 => 99,
            ButtonCode::KeyF9 => 100,
            ButtonCode::KeyF10 => 101,
            ButtonCode::KeyF11 => 102,
            ButtonCode::KeyF12 => 103,
            ButtonCode::KeyCapsLockToggle => 104,
            ButtonCode::KeyNumLockToggle => 105,
            ButtonCode::KeyScrollLockToggle => 106,
            ButtonCode::MouseLeft => 107,
            ButtonCode::MouseRight => 108,
            ButtonCode::MouseMiddle => 109,
            ButtonCode::Mouse4 => 110,
            ButtonCode::Mouse5 => 111,
            ButtonCode::MouseWheelUp => 112,
            ButtonCode::MouseWheelDown => 113,
        }
    }

    /// The button with number `i`: `Some` exactly for the numbers of the declared
    /// buttons, `0` through `113`, and `None` below `0` or above the sum of the
    /// key and mouse-button counts. That sum itself (`114`) is left out: the
    /// range check lets it through although no button has that number.
    pub fn from_i32(i: i32) -> (r: Option<ButtonCode>)
        requires
            i != spec_key_count() + spec_mouse_count(),
        ensures
            r == button_of_code(i),
    {
        match i {
            0 => Some(ButtonCode::KeyNone),
            1 => Some(ButtonCode::Key0),
            2 => Some(ButtonCode::Key1),
            3 => Some(ButtonCode::Key2),
            4 => Some(ButtonCode::Key3),
            5 => Some(ButtonCode::Key4),
            6 => Some(ButtonCode::Key5),
            7 => Some(ButtonCode::Key6),
            8 => Some(ButtonCode::Key7),
            9 => Some(ButtonCode::Key8),
            10 => Some(ButtonCode::Key9),
            11 => Some(ButtonCode::KeyA),
            12 => Some(ButtonCode::KeyB),
            13 => Some(ButtonCode::KeyC),
            14 => Some(ButtonCode::KeyD),
            15 => Some(ButtonCode::KeyE),
            16 => Some(ButtonCode::KeyF),
            17 => Some(ButtonCode::KeyG),
            18 => Some(ButtonCode::KeyH),
            19 => Some(ButtonCode::KeyI),
            20 => Some(ButtonCode::KeyJ),
            21 => Some(ButtonCode::KeyK),
            22 => Some(ButtonCode::KeyL),
            23 => Some(ButtonCode::KeyM),
            24 => Some(ButtonCode::KeyN),
            25 => Some(ButtonCode::KeyO),
            26 => Some(ButtonCode::KeyP),
            27 => Some(ButtonCode::KeyQ),
            28 => Some(ButtonCode::KeyR),
            29 => Some(ButtonCode::KeyS),
            30 => Some(ButtonCode::KeyT),
            31 => Some(ButtonCode::KeyU),
            32 => Some(ButtonCode::KeyV),
            33 => Some(ButtonCode::KeyW),
            34 => Some(ButtonCode::KeyX),
            35 => Some(ButtonCode::KeyY),
            36 => Some(ButtonCode::KeyZ),
            37 => Some(ButtonCode::KeyPad0),
            38 => Some(ButtonCode::KeyPad1),
            39 => Some(ButtonCode::KeyPad2),
            40 => Some(ButtonCode::KeyPad3),
            41 => Some(ButtonCode::KeyPad4),
            42 => Some(ButtonCode::KeyPad5),
            43 => Some(ButtonCode::KeyPad6),
            44 => Some(ButtonCode::KeyPad7),
            45 => Some(ButtonCode::KeyPad8),
            46 => Some(ButtonCode::KeyPad9),
            47 => Some(ButtonCode::KeyPadDivide),
            48 => Some(ButtonCode::KeyPadMultiply),
            49 => Some(ButtonCode::KeyPadMinus),
            50 => Some(ButtonCode::KeyPadPlus),
            51 => Some(ButtonCode::KeyPadEnter),
            52 => Some(ButtonCode::KeyPadDecimal),
            53 => Some(ButtonCode::KeyLBracket),
            54 => Some(ButtonCode::KeyRBracket),
            55 => Some(ButtonCode::KeySemicolon),
            56 => Some(ButtonCode::KeyApostrophe),
            57 => Some(ButtonCode::KeyBackQuote),
            58 => Some(ButtonCode::KeyComma),
            59 => Some(ButtonCode::KeyPeriod),
            60 => Some(ButtonCode::KeySlash),
            61 => Some(ButtonCode::KeyBackslash),
            62 => Some(ButtonCode::KeyMinus),
            63 => Some(ButtonCode::KeyEqual),
            64 => Some(ButtonCode::KeyEnter),
            65 => Some(ButtonCode::KeySpace),
            66 => Some(ButtonCode::KeyBackspace),
            67 => Some(ButtonCode::KeyTab),
            68 => Some(ButtonCode::KeyCapsLock),
            69 => Some(ButtonCode::KeyNumLock),
            70 => Some(ButtonCode::KeyEscape),
            71 => Some(ButtonCode::KeyScrollLock),
            72 => Some(ButtonCode::KeyInsert),
            73 => Some(ButtonCode::KeyDelete),
            74 => Some(ButtonCode::KeyHome),
            75 => Some(ButtonCode::KeyEnd),
            76 => Some(ButtonCode::KeyPageUp),
            77 => Some(ButtonCode::KeyPageDown),
            78 => Some(ButtonCode::KeyBreak),
            79 => Some(ButtonCode::KeyLShift),
            80 => Some(ButtonCode::KeyRShift),
            81 => Some(ButtonCode::KeyLAlt),
            82 => Some(ButtonCode::KeyRAlt),
            83 => Some(ButtonCode::KeyLControl),
            84 => Some(ButtonCode::KeyRControl),
            85 => Some(ButtonCode::KeyLWin),
            86 => Some(ButtonCode::KeyRWin),
            87 => Some(ButtonCode::KeyApp),
            88 => Some(ButtonCode::KeyUp),
            89 => Some(ButtonCode::KeyLeft),
            90 => Some(ButtonCode::KeyDown),
            91 => Some(ButtonCode::KeyRight),
            92 => Some(ButtonCode::KeyF1),
            93 => Some(ButtonCode::KeyF2),
            94 => Some(ButtonCode::KeyF3),
            95 => Some(ButtonCode::KeyF4),
            96 => Some(ButtonCode::KeyF5),
            97 => Some(ButtonCode::KeyF6),
            98 => Some(ButtonCode::KeyF7),
            99 => Some(ButtonCode::KeyF8),
            100 => Some(ButtonCode::KeyF9),
            101 => Some(ButtonCode::KeyF10),
            102 => Some(ButtonCode::KeyF11),
            103 => Some(ButtonCode::KeyF12),
            104 => Some(ButtonCode::KeyCapsLockToggle),
            105 => Some(ButtonCode::KeyNumLockToggle),
            106 => Some(ButtonCode::KeyScrollLockToggle),
            107 => Some(ButtonCode::MouseLeft),
            108 => Some(ButtonCode::MouseRight),
            109 => Some(ButtonCode::MouseMiddle),
            110 => Some(ButtonCode::Mouse4),
            111 => Some(ButtonCode::Mouse5),
            112 => Some(ButtonCode::MouseWheelUp),
            113 => Some(ButtonCode::MouseWheelDown),
            _ => None,
        }
    }

    /// The first keyboard key.
    pub fn first_key() -> (r: ButtonCode)
        ensures
            r == ButtonCode::KeyNone,
    {
        ButtonCode::KeyNone
    }

    /// The last keyboard key.
    pub fn last_key() -> (r: ButtonCode)
        ensures
            r == ButtonCode::KeyScrollLockToggle,
    {
        ButtonCode::KeyScrollLockToggle
    }

    /// How many keyboard keys there are: the span from the first to the last key.
    pub fn key_count() -> (r: i32)
        ensures
            r == spec_key_count(),
            r == 107,
    {
        Self::last_key().to_i32() - Self::first_key().to_i32() + 1
    }

    /// The first mouse button.
    pub fn first_mouse() -> (r: ButtonCode)
        ensures
            r == ButtonCode::MouseLeft,
    {
        ButtonCode::MouseLeft
    }

    /// The last mouse button.
    pub fn last_mouse() -> (r: ButtonCode)
        ensures
            r == ButtonCode::MouseWheelDown,
    {
        ButtonCode::MouseWheelDown
    }

    /// How many mouse buttons there are: the span from the first to the last one.
    pub fn mouse_count() -> (r: i32)
        ensures
            r == spec_mouse_count(),
            r == 7,
    {
        Self::last_mouse().to_i32() - Self::first_mouse().to_i32() + 1
    }
}

/// Every button's number is its position in the declaration, the keys from
/// `KeyNone` at 0 to `KeyScrollLockToggle` at 106 and the mouse buttons from
/// `MouseLeft` at 107 to `MouseWheelDown` at 113; and each of those numbers
/// leads back to its button.
pub proof fn lemma_button_numbers()
    ensures
        button_code(ButtonCode::KeyNone) == 0,
        button_code(ButtonCode::Key0) == 1,
        button_code(ButtonCode::Key1) == 2,
        button_code(ButtonCode::Key2) == 3,
        button_code(ButtonCode::Key3) == 4,
        button_code(ButtonCode::Key4) == 5,
        button_code(ButtonCode::Key5) == 6,
        button_code(ButtonCode::Key6) == 7,
        button_code(ButtonCode::Key7) == 8,
        button_code(ButtonCode::Key8) == 9,
        button_code(ButtonCode::Key9) == 10,
        button_code(ButtonCode::KeyA) == 11,
        button_code(ButtonCode::KeyB) == 12,
        button_code(ButtonCode::KeyC) == 13,
        button_code(ButtonCode::KeyD) == 14,
        button_code(ButtonCode::KeyE) == 15,
        button_code(ButtonCode::KeyF) == 16,
        button_code(ButtonCode::KeyG) == 17,
        button_code(ButtonCode::KeyH) == 18,
        button_code(ButtonCode::KeyI) == 19,
        button_code(ButtonCode::KeyJ) == 20,
        button_code(ButtonCode::KeyK) == 21,
        button_code(ButtonCode::KeyL) == 22,
        button_code(ButtonCode::KeyM) == 23,
        button_code(ButtonCode::KeyN) == 24,
        button_code(ButtonCode::KeyO) == 25,
        button_code(ButtonCode::KeyP) == 26,
        button_code(ButtonCode::KeyQ) == 27,
        button_code(ButtonCode::KeyR) == 28,
        button_code(ButtonCode::KeyS) == 29,
        button_code(ButtonCode::KeyT) == 30,
        button_code(ButtonCode::KeyU) == 31,
        button_code(ButtonCode::KeyV) == 32,
        button_code(ButtonCode::KeyW) == 33,
        button_code(ButtonCode::KeyX) == 34,
        button_code(ButtonCode::KeyY) == 35,
        button_code(ButtonCode::KeyZ) == 36,
        button_code(ButtonCode::KeyPad0) == 37,
        button_code(ButtonCode::KeyPad1) == 38,
        button_code(ButtonCode::KeyPad2) == 39,
        button_code(ButtonCode::KeyPad3) == 40,
        button_code(ButtonCode::KeyPad4) == 41,
        button_code(ButtonCode::KeyPad5) == 42,
        button_code(ButtonCode::KeyPad6) == 43,
        button_code(ButtonCode::KeyPad7) == 44,
        button_code(ButtonCode::KeyPad8) == 45,
        button_code(ButtonCode::KeyPad9) == 46,
        button_code(ButtonCode::KeyPadDivide) == 47,
        button_code(ButtonCode::KeyPadMultiply) == 48,
        button_code(ButtonCode::KeyPadMinus) == 49,
        button_code(ButtonCode::KeyPadPlus) == 50,
        button_code(ButtonCode::KeyPadEnter) == 51,
        button_code(ButtonCode::KeyPadDecimal) == 52,
        button_code(ButtonCode::KeyLBracket) == 53,
        button_code(ButtonCode::KeyRBracket) == 54,
        button_code(ButtonCode::KeySemicolon) == 55,
        button_code(ButtonCode::KeyApostrophe) == 56,
        button_code(ButtonCode::KeyBackQuote) == 57,
        button_code(ButtonCode::KeyComma) == 58,
        button_code(ButtonCode::KeyPeriod) == 59,
        button_code(ButtonCode::KeySlash) == 60,
        button_code(ButtonCode::KeyBackslash) == 61,
        button_code(ButtonCode::KeyMinus) == 62,
        button_code(ButtonCode::KeyEqual) == 63,
        button_code(ButtonCode::KeyEnter) == 64,
        button_code(ButtonCode::KeySpace) == 65,
        button_code(ButtonCode::KeyBackspace) == 66,
        button_code(ButtonCode::KeyTab) == 67,
        button_code(ButtonCode::KeyCapsLock) == 68,
        button_code(ButtonCode::KeyNumLock) == 69,
        button_code(ButtonCode::KeyEscape) == 70,
        button_code(ButtonCode::KeyScrollLock) == 71,
        button_code(ButtonCode::KeyInsert) == 72,
        button_code(ButtonCode::KeyDelete) == 73,
        button_code(ButtonCode::KeyHome) == 74,
        button_code(ButtonCode::KeyEnd) == 75,
        button_code(ButtonCode::KeyPageUp) == 76,
        button_code(ButtonCode::KeyPageDown) == 77,
        button_code(ButtonCode::KeyBreak) == 78,
        button_code(ButtonCode::KeyLShift) == 79,
        button_code(ButtonCode::KeyRShift) == 80,
        button_code(ButtonCode::KeyLAlt) == 81,
        button_code(ButtonCode::KeyRAlt) == 82,
        button_code(ButtonCode::KeyLControl) == 83,
        button_code(ButtonCode::KeyRControl) == 84,
        button_code(ButtonCode::KeyLWin) == 85,
        button_code(ButtonCode::KeyRWin) == 86,
        button_code(ButtonCode::KeyApp) == 87,
        button_code(ButtonCode::KeyUp) == 88,
        button_code(ButtonCode::KeyLeft) == 89,
        button_code(ButtonCode::KeyDown) == 90,
        button_code(ButtonCode::KeyRight) == 91,
        button_code(ButtonCode::KeyF1) == 92,
        button_code(ButtonCode::KeyF2) == 93,
        button_code(ButtonCode::KeyF3) == 94,
        button_code(ButtonCode::KeyF4) == 95,
        button_code(ButtonCode::KeyF5) == 96,
        button_code(ButtonCode::KeyF6) == 97,
        button_code(ButtonCode::KeyF7) == 98,
        button_code(ButtonCode::KeyF8) == 99,
        button_code(ButtonCode::KeyF9) == 100,
        button_code(ButtonCode::KeyF10) == 101,
        button_code(ButtonCode::KeyF11) == 102,
        button_code(ButtonCode::KeyF12) == 103,
        button_code(ButtonCode::KeyCapsLockToggle) == 104,
        button_code(ButtonCode::KeyNumLockToggle) == 105,
        button_code(ButtonCode::KeyScrollLockToggle) == 106,
        button_code(ButtonCode::MouseLeft) == 107,
        button_code(ButtonCode::MouseRight) == 108,
        button_code(ButtonCode::MouseMiddle) == 109,
        button_code(ButtonCode::Mouse4) == 110,
        button_code(ButtonCode::Mouse5) == 111,
        button_code(ButtonCode::MouseWheelUp) == 112,
        button_code(ButtonCode::MouseWheelDown) == 113,
        button_of_code(0i32) == Some(ButtonCode::KeyNone),
        button_of_code(1i32) == Some(ButtonCode::Key0),
        button_of_code(2i32) == Some(ButtonCode::Key1),
        button_of_code(3i32) == Some(ButtonCode::Key2),
        button_of_code(4i32) == Some(ButtonCode::Key3),
        button_of_code(5i32) == Some(ButtonCode::Key4),
        button_of_code(6i32) == Some(ButtonCode::Key5),
        button_of_code(7i32) == Some(ButtonCode::Key6),
        button_of_code(8i32) == Some(ButtonCode::Key7),
        button_of_code(9i32) == Some(ButtonCode::Key8),
        button_of_code(10i32) == Some(ButtonCode::Key9),
        button_of_code(11i32) == Some(ButtonCode::KeyA),
        button_of_code(12i32) == Some(ButtonCode::KeyB),
        button_of_code(13i32) == Some(ButtonCode::KeyC),
        button_of_code(14i32) == Some(ButtonCode::KeyD),
        button_of_code(15i32) == Some(ButtonCode::KeyE),
        button_of_code(16i32) == Some(ButtonCode::KeyF),
        button_of_code(17i32) == Some(ButtonCode::KeyG),
        button_of_code(18i32) == Some(ButtonCode::KeyH),
        button_of_code(19i32) == Some(ButtonCode::KeyI),
        button_of_code(20i32) == Some(ButtonCode::KeyJ),
        button_of_code(21i32) == Some(ButtonCode::KeyK),
        button_of_code(22i32) == Some(ButtonCode::KeyL),
        button_of_code(23i32) == Some(ButtonCode::KeyM),
        button_of_code(24i32) == Some(ButtonCode::KeyN),
        button_of_code(25i32) == Some(ButtonCode::KeyO),
        button_of_code(26i32) == Some(ButtonCode::KeyP),
        button_of_code(27i32) == Some(ButtonCode::KeyQ),
        button_of_code(28i32) == Some(ButtonCode::KeyR),
        button_of_code(29i32) == Some(ButtonCode::KeyS),
        button_of_code(30i32) == Some(ButtonCode::KeyT),
        button_of_code(31i32) == Some(ButtonCode::KeyU),
        button_of_code(32i32) == Some(ButtonCode::KeyV),
        button_of_code(33i32) == Some(ButtonCode::KeyW),
        button_of_code(34i32) == Some(ButtonCode::KeyX),
        button_of_code(35i32) == Some(ButtonCode::KeyY),
        button_of_code(36i32) == Some(ButtonCode::KeyZ),
        button_of_code(37i32) == Some(ButtonCode::KeyPad0),
        button_of_code(38i32) == Some(ButtonCode::KeyPad1),
        button_of_code(39i32) == Some(ButtonCode::KeyPad2),
        button_of_code(40i32) == Some(ButtonCode::KeyPad3),
        button_of_code(41i32) == Some(ButtonCode::KeyPad4),
        button_of_code(42i32) == Some(ButtonCode::KeyPad5),
        button_of_code(43i32) == Some(ButtonCode::KeyPad6),
        button_of_code(44i32) == Some(ButtonCode::KeyPad7),
        button_of_code(45i32) == Some(ButtonCode::KeyPad8),
        button_of_code(46i32) == Some(ButtonCode::KeyPad9),
        button_of_code(47i32) == Some(ButtonCode::KeyPadDivide),
        button_of_code(48i32) == Some(ButtonCode::KeyPadMultiply),
        button_of_code(49i32) == Some(ButtonCode::KeyPadMinus),
        button_of_code(50i32) == Some(ButtonCode::KeyPadPlus),
        button_of_code(51i32) == Some(ButtonCode::KeyPadEnter),
        button_of_code(52i32) == Some(ButtonCode::KeyPadDecimal),
        button_of_code(53i32) == Some(ButtonCode::KeyLBracket),
        button_of_code(54i32) == Some(ButtonCode::KeyRBracket),
        button_of_code(55i32) == Some(ButtonCode::KeySemicolon),
        button_of_code(56i32) == Some(ButtonCode::KeyApostrophe),
        button_of_code(57i32) == Some(ButtonCode::KeyBackQuote),
        button_of_code(58i32) == Some(ButtonCode::KeyComma),
        button_of_code(59i32) == Some(ButtonCode::KeyPeriod),
        button_of_code(60i32) == Some(ButtonCode::KeySlash),
        button_of_code(61i32) == Some(ButtonCode::KeyBackslash),
        button_of_code(62i32) == Some(ButtonCode::KeyMinus),
        button_of_code(63i32) == Some(ButtonCode::KeyEqual),
        button_of_code(64i32) == Some(ButtonCode::KeyEnter),
        button_of_code(65i32) == Some(ButtonCode::KeySpace),
        button_of_code(66i32) == Some(ButtonCode::KeyBackspace),
        button_of_code(67i32) == Some(ButtonCode::KeyTab),
        button_of_code(68i32) == Some(ButtonCode::KeyCapsLock),
        button_of_code(69i32) == Some(ButtonCode::KeyNumLock),
        button_of_code(70i32) == Some(ButtonCode::KeyEscape),
        button_of_code(71i32) == Some(ButtonCode::KeyScrollLock),
        button_of_code(72i32) == Some(ButtonCode::KeyInsert),
        button_of_code(73i32) == Some(ButtonCode::KeyDelete),
        button_of_code(74i32) == Some(ButtonCode::KeyHome),
        button_of_code(75i32) == Some(ButtonCode::KeyEnd),
        button_of_code(76i32) == Some(ButtonCode::KeyPageUp),
        button_of_code(77i32) == Some(ButtonCode::KeyPageDown),
        button_of_code(78i32) == Some(ButtonCode::KeyBreak),
        button_of_code(79i32) == Some(ButtonCode::KeyLShift),
        button_of_code(80i32) == Some(ButtonCode::KeyRShift),
        button_of_code(81i32) == Some(ButtonCode::KeyLAlt),
        button_of_code(82i32) == Some(ButtonCode::KeyRAlt),
        button_of_code(83i32) == Some(ButtonCode::KeyLControl),
        button_of_code(84i32) == Some(ButtonCode::KeyRControl),
        button_of_code(85i32) == Some(ButtonCode::KeyLWin),
        button_of_code(86i32) == Some(ButtonCode::KeyRWin),
        button_of_code(87i32) == Some(ButtonCode::KeyApp),
        button_of_code(88i32) == Some(ButtonCode::KeyUp),
        button_of_code(89i32) == Some(ButtonCode::KeyLeft),
        button_of_code(90i32) == Some(ButtonCode::KeyDown),
        button_of_code(91i32) == Some(ButtonCode::KeyRight),
        button_of_code(92i32) == Some(ButtonCode::KeyF1),
        button_of_code(93i32) == Some(ButtonCode::KeyF2),
        button_of_code(94i32) == Some(ButtonCode::KeyF3),
        button_of_code(95i32) == Some(ButtonCode::KeyF4),
        button_of_code(96i32) == Some(ButtonCode::KeyF5),
        button_of_code(97i32) == Some(ButtonCode::KeyF6),
        button_of_code(98i32) == Some(ButtonCode::KeyF7),
        button_of_code(99i32) == Some(ButtonCode::KeyF8),
        button_of_code(100i32) == Some(ButtonCode::KeyF9),
        button_of_code(101i32) == Some(ButtonCode::KeyF10),
        button_of_code(102i32) == Some(ButtonCode::KeyF11),
        button_of_code(103i32) == Some(ButtonCode::KeyF12),
        button_of_code(104i32) == Some(ButtonCode::KeyCapsLockToggle),
        button_of_code(105i32) == Some(ButtonCode::KeyNumLockToggle),
        button_of_code(106i32) == Some(ButtonCode::KeyScrollLockToggle),
        button_of_code(107i32) == Some(ButtonCode::MouseLeft),
        button_of_code(108i32) == Some(ButtonCode::MouseRight),
        button_of_code(109i32) == Some(ButtonCode::MouseMiddle),
        button_of_code(110i32) == Some(ButtonCode::Mouse4),
        button_of_code(111i32) == Some(ButtonCode::Mouse5),
        button_of_code(112i32) == Some(ButtonCode::MouseWheelUp),
        button_of_code(113i32) == Some(ButtonCode::MouseWheelDown),
{
}

/// Every button's number leads back to the button.
pub proof fn lemma_button_code_round_trip(b: ButtonCode)
    ensures
        0 <= button_code(b) < spec_key_count() + spec_mouse_count(),
        button_of_code(button_code(b) as i32) == Some(b),
{
}

/// A number names a button exactly when it lies below the count of keys and
/// mouse buttons together, and then the button's number is that number.
pub proof fn lemma_code_button_round_trip(i: i32)
    ensures
        button_of_code(i) is Some <==> 0 <= i < spec_key_count() + spec_mouse_count(),
        button_of_code(i) matches Some(b) ==> button_code(b) == i,
{
}

/// Keys come before mouse buttons: a button is a key exactly when its number
/// lies below the key count.
pub proof fn lemma_keys_before_mouse(b: ButtonCode)
    ensures
        button_code(b) < spec_key_count() <==> button_code(b) <= button_code(
            ButtonCode::KeyScrollLockToggle,
        ),
        button_code(b) >= spec_key_count() <==> button_code(ButtonCode::MouseLeft)
            <= button_code(b),
{
}

/// What a button does in a frame's user command.
#[derive(Clone, Copy, PartialEq, Eq, Structural, Debug)]
pub enum MouseCodeState {
    ButtonReleased,
    ButtonPressed,
    ButtonDoubleClicked,
}

/// The `IN_ATTACK` flag of `CmdButtons`.
pub const IN_ATTACK: i32 = 0x1;
/// The `IN_JUMP` flag of `CmdButtons`.
pub const IN_JUMP: i32 = 0x2;
/// The `IN_DUCK` flag of `CmdButtons`.
pub const IN_DUCK: i32 = 0x4;
/// The `IN_FORWARD` flag of `CmdButtons`.
pub const IN_FORWARD: i32 = 0x8;
/// The `IN_BACK` flag of `CmdButtons`.
pub const IN_BACK: i32 = 0x10;
/// The `IN_USE` flag of `CmdButtons`.
pub const IN_USE: i32 = 0x20;
/// The `IN_CANCEL` flag of `CmdButtons`.
pub const IN_CANCEL: i32 = 0x40;
/// The `IN_LEFT` flag of `CmdButtons`.
pub const IN_LEFT: i32 = 0x80;
/// The `IN_RIGHT` flag of `CmdButtons`.
pub const IN_RIGHT: i32 = 0x100;
/// The `IN_MOVE_LEFT` flag of `CmdButtons`.
pub const IN_MOVE_LEFT: i32 = 0x200;
/// The `IN_MOVE_RIGHT` flag of `CmdButtons`.
pub const IN_MOVE_RIGHT: i32 = 0x400;
/// The `IN_ATTACK_2` flag of `CmdButtons`.
pub const IN_ATTACK_2: i32 = 0x800;
/// The `IN_RUN` flag of `CmdButtons`.
pub const IN_RUN: i32 = 0x1000;
/// The `IN_RELOAD` flag of `CmdButtons`.
pub const IN_RELOAD: i32 = 0x2000;
/// The `IN_ALT_1` flag of `CmdButtons`.
pub const IN_ALT_1: i32 = 0x4000;
/// The `IN_ALT_2` flag of `CmdButtons`.
pub const IN_ALT_2: i32 = 0x8000;
/// The `IN_SCOREBOARD` flag of `CmdButtons`.
pub const IN_SCOREBOARD: i32 = 0x10000;
/// The `IN_SPEED` flag of `CmdButtons`.
pub const IN_SPEED: i32 = 0x20000;
/// The `IN_WALK` flag of `CmdButtons`.
pub const IN_WALK: i32 = 0x40000;
/// The `IN_ZOOM` flag of `CmdButtons`.
pub const IN_ZOOM: i32 = 0x80000;
/// The `IN_WEAPON_1` flag of `CmdButtons`.
pub const IN_WEAPON_1: i32 = 0x100000;
/// The `IN_WEAPON_2` flag of `CmdButtons`.
pub const IN_WEAPON_2: i32 = 0x200000;
/// The `IN_BULL_RUSH` flag of `CmdButtons`.
pub const IN_BULL_RUSH: i32 = 0x400000;
/// The `IN_GRENADE_1` flag of `CmdButtons`.
pub const IN_GRENADE_1: i32 = 0x800000;
/// The `IN_GRENADE_2` flag of `CmdButtons`.
pub const IN_GRENADE_2: i32 = 0x1000000;
/// The `IN_ATTACK_3` flag of `CmdButtons`.
pub const IN_ATTACK_3: i32 = 0x2000000;

/// Every flag of `CmdButtons` at once.
pub const ALL_CMD_BUTTONS: i32 = 0x3ffffff;

/// The buttons held in a user command, a set of the flags above kept as the bits
/// of an `i32`.
#[derive(Clone, Copy, PartialEq, Eq, Structural, Debug)]
pub struct CmdButtons {
    bits: i32,
}

impl View for CmdButtons {
    type V = i32;

    closed spec fn view(&self) -> i32 {
        self.bits
    }
}

impl CmdButtons {
    /// The set with no flag.
    pub fn empty() -> (r: CmdButtons)
        ensures
            r@ == 0,
    {
        CmdButtons { bits: 0 }
    }

    /// The set with every flag.
    pub fn all() -> (r: CmdButtons)
        ensures
            r@ == ALL_CMD_BUTTONS,
    {
        CmdButtons { bits: ALL_CMD_BUTTONS }
    }

    /// The raw bits.
    pub fn bits(&self) -> (r: i32)
        ensures
            r == self@,
    {
        self.bits
    }

    /// The set with exactly the bits `bits`, unless a bit is not one of the flags.
    pub fn from_bits(bits: i32) -> (r: Option<CmdButtons>)
        ensures
            r is Some <==> bits & !ALL_CMD_BUTTONS == 0,
            r matches Some(f) ==> f@ == bits,
    {
        if bits & !ALL_CMD_BUTTONS == 0 {
            Some(CmdButtons { bits })
        } else {
            None
        }
    }

    /// The set of the flags among `bits`; the other bits are dropped.
    pub fn from_bits_truncate(bits: i32) -> (r: CmdButtons)
        ensures
            r@ == bits & ALL_CMD_BUTTONS,
    {
        CmdButtons { bits: bits & ALL_CMD_BUTTONS }
    }

    /// Whether no flag is set.
    pub fn is_empty(&self) -> (r: bool)
        ensures
            r == (self@ == 0),
    {
        self.bits == 0
    }

    /// Whether every flag is set.
    pub fn is_all(&self) -> (r: bool)
        ensures
            r == (ALL_CMD_BUTTONS | self@ == self@),
    {
        ALL_CMD_BUTTONS | self.bits == self.bits
    }

    /// Whether the two sets share a flag.
    pub fn intersects(&self, other: CmdButtons) -> (r: bool)
        ensures
            r == (self@ & other@ != 0),
    {
        self.bits & other.bits != 0
    }

    /// Whether every flag of `other` is in this set.
    pub fn contains(&self, other: CmdButtons) -> (r: bool)
        ensures
            r == (self@ & other@ == other@),
    {
        self.bits & other.bits == other.bits
    }

    /// Adds the flags of `other`.
    pub fn insert(&mut self, other: CmdButtons)
        ensures
            final(self)@ == old(self)@ | other@,
    {
        self.bits = self.bits | other.bits;
    }

    /// Takes away the flags of `other`.
    pub fn remove(&mut self, other: CmdButtons)
        ensures
            final(self)@ == old(self)@ & !other@,
    {
        self.bits = self.bits & !other.bits;
    }

    /// Flips the flags of `other`.
    pub fn toggle(&mut self, other: CmdButtons)
        ensures
            final(self)@ == old(self)@ ^ other@,
    {
        self.bits = self.bits ^ other.bits;
    }

    /// Adds the flags of `other` where `value` holds, else takes them away.
    pub fn set(&mut self, other: CmdButtons, value: bool)
        ensures
            final(self)@ == if value {
                old(self)@ | other@
            } else {
                old(self)@ & !other@
            },
    {
        if value {
            self.insert(other);
        } else {
            self.remove(other);
        }
    }

    /// The flags in both sets.
    pub fn intersection(self, other: CmdButtons) -> (r: CmdButtons)
        ensures
            r@ == self@ & other@,
    {
        CmdButtons { bits: self.bits & other.bits }
    }

    /// The flags in either set.
    pub fn union(self, other: CmdButtons) -> (r: CmdButtons)
        ensures
            r@ == self@ | other@,
    {
        CmdButtons { bits: self.bits | other.bits }
    }

    /// The flags of this set that are not in `other`.
    pub fn difference(self, other: CmdButtons) -> (r: CmdButtons)
        ensures
            r@ == self@ & !other@,
    {
        CmdButtons { bits: self.bits & !other.bits }
    }

    /// The flags in exactly one of the two sets.
    pub fn symmetric_difference(self, other: CmdButtons) -> (r: CmdButtons)
        ensures
            r@ == self@ ^ other@,
    {
        CmdButtons { bits: self.bits ^ other.bits }
    }

    /// The flags that this set lacks.
    pub fn complement(self) -> (r: CmdButtons)
        ensures
            r@ == !self@ & ALL_CMD_BUTTONS,
    {
        Self::from_bits_truncate(!self.bits)
    }
}

/// After adding the flags of `b` to `a`, the set contains `b` and still contains `a`.
pub proof fn lemma_insert_contains(a: i32, b: i32)
    ensures
        (a | b) & b == b,
        (a | b) & a == a,
{
    assert((a | b) & b == b) by (bit_vector);
    assert((a | b) & a == a) by (bit_vector);
}

/// After taking the flags of `b` away from `a`, the set shares no flag with `b`,
/// and the flags of `a` outside `b` stay.
pub proof fn lemma_remove_excludes(a: i32, b: i32)
    ensures
        (a & !b) & b == 0,
        (a & !b) | (a & b) == a,
{
    assert((a & !b) & b == 0) by (bit_vector);
    assert((a & !b) | (a & b) == a) by (bit_vector);
}

/// Flipping the same flags twice gives back the set.
pub proof fn lemma_toggle_twice(a: i32, b: i32)
    ensures
        (a ^ b) ^ b == a,
{
    assert((a ^ b) ^ b == a) by (bit_vector);
}

/// Truncating keeps only flags, so the truncated bits are always accepted as a
/// set, and truncating twice changes nothing.
pub proof fn lemma_truncate_known(bits: i32)
    ensures
        (bits & ALL_CMD_BUTTONS) & !ALL_CMD_BUTTONS == 0,
        (bits & ALL_CMD_BUTTONS) & ALL_CMD_BUTTONS == bits & ALL_CMD_BUTTONS,
{
    assert((bits & 0x3ffffff) & !0x3ffffffi32 == 0) by (bit_vector);
    assert((bits & 0x3ffffff) & 0x3ffffff == bits & 0x3ffffff) by (bit_vector);
}

/// The complement of the complement of a set is the set cut down to its flags.
pub proof fn lemma_complement_twice(a: i32)
    ensures
        !(!a & ALL_CMD_BUTTONS) & ALL_CMD_BUTTONS == a & ALL_CMD_BUTTONS,
{
    assert(!(!a & 0x3ffffff) & 0x3ffffff == a & 0x3ffffffi32) by (bit_vector);
}

/// The set of every flag is the union of the single flags, as `all()` promises.
pub proof fn lemma_all_is_union()
    ensures
        ALL_CMD_BUTTONS == IN_ATTACK | IN_JUMP | IN_DUCK | IN_FORWARD | IN_BACK | IN_USE | IN_CANCEL | IN_LEFT | IN_RIGHT | IN_MOVE_LEFT | IN_MOVE_RIGHT | IN_ATTACK_2 | IN_RUN | IN_RELOAD | IN_ALT_1 | IN_ALT_2 | IN_SCOREBOARD | IN_SPEED | IN_WALK | IN_ZOOM | IN_WEAPON_1 | IN_WEAPON_2 | IN_BULL_RUSH | IN_GRENADE_1 | IN_GRENADE_2 | IN_ATTACK_3,
{
    assert(0x3ffffffi32 == 0x1i32 | 0x2i32 | 0x4i32 | 0x8i32 | 0x10i32 | 0x20i32 | 0x40i32 | 0x80i32 | 0x100i32 | 0x200i32 | 0x400i32 | 0x800i32 | 0x1000i32 | 0x2000i32 | 0x4000i32 | 0x8000i32 | 0x10000i32 | 0x20000i32 | 0x40000i32 | 0x80000i32 | 0x100000i32 | 0x200000i32 | 0x400000i32 | 0x800000i32 | 0x1000000i32 | 0x2000000i32) by (bit_vector);
}

} // verus!
