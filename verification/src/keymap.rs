//! macOS HIToolbox virtual key codes and Linux evdev `KEY_*` codes.
//!
//! Both code spaces name physical key positions, independent of the
//! keyboard layout, so one table covers every US ANSI layout. The table is
//! one-to-one: `mac_to_linux` and `linux_to_mac` are inverse partial maps
//! (see `lemma_keymap_inverse`).

use vstd::prelude::*;

verus! {

/// The Linux `KEY_*` code paired with a macOS virtual key code, if the
/// table has one.
pub open spec fn spec_mac_to_linux(mac_code: u16) -> Option<u16> {
    match mac_code {
            0 => Some(30),
            1 => Some(31),
            2 => Some(32),
            3 => Some(33),
            4 => Some(35),
            5 => Some(34),
            6 => Some(44),
            7 => Some(45),
            8 => Some(46),
            9 => Some(47),
            11 => Some(48),
            12 => Some(16),
            13 => Some(17),
            14 => Some(18),
            15 => Some(19),
            16 => Some(21),
            17 => Some(20),
            18 => Some(2),
            19 => Some(3),
            20 => Some(4),
            21 => Some(5),
            22 => Some(7),
            23 => Some(6),
            24 => Some(13),
            25 => Some(10),
            26 => Some(8),
            27 => Some(12),
            28 => Some(9),
            29 => Some(11),
            30 => Some(27),
            31 => Some(24),
            32 => Some(22),
            33 => Some(26),
            34 => Some(23),
            35 => Some(25),
            36 => Some(28),
            37 => Some(38),
            38 => Some(36),
            39 => Some(40),
            40 => Some(37),
            41 => Some(39),
            42 => Some(43),
            43 => Some(51),
            44 => Some(53),
            45 => Some(49),
            46 => Some(50),
            47 => Some(52),
            48 => Some(15),
            49 => Some(57),
            50 => Some(41),
            51 => Some(14),
            53 => Some(1),
            54 => Some(126),
            55 => Some(125),
            56 => Some(42),
            57 => Some(58),
            58 => Some(56),
            59 => Some(29),
            60 => Some(54),
            61 => Some(100),
            62 => Some(97),
            63 => Some(464),
            96 => Some(63),
            97 => Some(64),
            98 => Some(65),
            99 => Some(61),
            100 => Some(66),
            101 => Some(67),
            103 => Some(87),
            109 => Some(68),
            111 => Some(88),
            115 => Some(102),
            116 => Some(104),
            117 => Some(111),
            118 => Some(62),
            119 => Some(107),
            120 => Some(60),
            121 => Some(109),
            122 => Some(59),
            123 => Some(105),
            124 => Some(106),
            125 => Some(108),
            126 => Some(103),
            _ => None,
    }
}

/// The macOS virtual key code paired with a Linux `KEY_*` code, if the
/// table has one.
pub open spec fn spec_linux_to_mac(linux_code: u16) -> Option<u16> {
    match linux_code {
            1 => Some(53),
            2 => Some(18),
            3 => Some(19),
            4 => Some(20),
            5 => Some(21),
            6 => Some(23),
            7 => Some(22),
            8 => Some(26),
            9 => Some(28),
            10 => Some(25),
            11 => Some(29),
            12 => Some(27),
            13 => Some(24),
            14 => Some(51),
            15 => Some(48),
            16 => Some(12),
            17 => Some(13),
            18 => Some(14),
            19 => Some(15),
            20 => Some(17),
            21 => Some(16),
            22 => Some(32),
            23 => Some(34),
            24 => Some(31),
            25 => Some(35),
            26 => Some(33),
            27 => Some(30),
            28 => Some(36),
            29 => Some(59),
            30 => Some(0),
            31 => Some(1),
            32 => Some(2),
            33 => Some(3),
            34 => Some(5),
            35 => Some(4),
            36 => Some(38),
            37 => Some(40),
            38 => Some(37),
            39 => Some(41),
            40 => Some(39),
            41 => Some(50),
            42 => Some(56),
            43 => Some(42),
            44 => Some(6),
            45 => Some(7),
            46 => Some(8),
            47 => Some(9),
            48 => Some(11),
            49 => Some(45),
            50 => Some(46),
            51 => Some(43),
            52 => Some(47),
            53 => Some(44),
            54 => Some(60),
            56 => Some(58),
            57 => Some(49),
            58 => Some(57),
            59 => Some(122),
            60 => Some(120),
            61 => Some(99),
            62 => Some(118),
            63 => Some(96),
            64 => Some(97),
            65 => Some(98),
            66 => Some(100),
            67 => Some(101),
            68 => Some(109),
            87 => Some(103),
            88 => Some(111),
            97 => Some(62),
            100 => Some(61),
            102 => Some(115),
            103 => Some(126),
            104 => Some(116),
            105 => Some(123),
            106 => Some(124),
            107 => Some(119),
            108 => Some(125),
            109 => Some(121),
            111 => Some(117),
            125 => Some(55),
            126 => Some(54),
            464 => Some(63),
            _ => None,
    }
}

/// The key table as (macOS virtual key code, Linux `KEY_*` code) pairs.
pub open spec fn spec_key_table() -> Seq<(u16, u16)> {
    seq![
        (0, 30),  // A -> KEY_A
        (1, 31),  // S -> KEY_S
        (2, 32),  // D -> KEY_D
        (3, 33),  // F -> KEY_F
        (4, 35),  // H -> KEY_H
        (5, 34),  // G -> KEY_G
        (6, 44),  // Z -> KEY_Z
        (7, 45),  // X -> KEY_X
        (8, 46),  // C -> KEY_C
        (9, 47),  // V -> KEY_V
        (11, 48),  // B -> KEY_B
        (12, 16),  // Q -> KEY_Q
        (13, 17),  // W -> KEY_W
        (14, 18),  // E -> KEY_E
        (15, 19),  // R -> KEY_R
        (16, 21),  // Y -> KEY_Y
        (17, 20),  // T -> KEY_T
        (31, 24),  // O -> KEY_O
        (32, 22),  // U -> KEY_U
        (34, 23),  // I -> KEY_I
        (35, 25),  // P -> KEY_P
        (37, 38),  // L -> KEY_L
        (38, 36),  // J -> KEY_J
        (40, 37),  // K -> KEY_K
        (45, 49),  // N -> KEY_N
        (46, 50),  // M -> KEY_M
        (18, 2),  // 1 -> KEY_1
        (19, 3),  // 2 -> KEY_2
        (20, 4),  // 3 -> KEY_3
        (21, 5),  // 4 -> KEY_4
        (22, 7),  // 6 -> KEY_6
        (23, 6),  // 5 -> KEY_5 (Mac's odd ordering, verified against HIToolbox)
        (25, 10),  // 9 -> KEY_9
        (26, 8),  // 7 -> KEY_7
        (28, 9),  // 8 -> KEY_8
        (29, 11),  // 0 -> KEY_0
        (24, 13),  // = -> KEY_EQUAL
        (27, 12),  // - -> KEY_MINUS
        (30, 27),  // ] -> KEY_RIGHTBRACE
        (33, 26),  // [ -> KEY_LEFTBRACE
        (39, 40),  // ' -> KEY_APOSTROPHE
        (41, 39),  // ; -> KEY_SEMICOLON
        (42, 43),  // \ -> KEY_BACKSLASH
        (43, 51),  // , -> KEY_COMMA
        (44, 53),  // / -> KEY_SLASH
        (47, 52),  // . -> KEY_DOT
        (50, 41),  // ` -> KEY_GRAVE
        (36, 28),  // Return -> KEY_ENTER
        (48, 15),  // Tab -> KEY_TAB
        (49, 57),  // Space -> KEY_SPACE
        (51, 14),  // Delete (backspace) -> KEY_BACKSPACE
        (53, 1),  // Escape -> KEY_ESC
        (117, 111),  // Forward Delete -> KEY_DELETE
        (115, 102),  // Home -> KEY_HOME
        (119, 107),  // End -> KEY_END
        (116, 104),  // Page Up -> KEY_PAGEUP
        (121, 109),  // Page Down -> KEY_PAGEDOWN
        (54, 126),  // Command (right) -> KEY_RIGHTMETA
        (55, 125),  // Command (left) -> KEY_LEFTMETA
        (56, 42),  // Shift (left) -> KEY_LEFTSHIFT
        (57, 58),  // Caps Lock -> KEY_CAPSLOCK
        (58, 56),  // Option (left) -> KEY_LEFTALT
        (59, 29),  // Control (left) -> KEY_LEFTCTRL
        (60, 54),  // Shift (right) -> KEY_RIGHTSHIFT
        (61, 100),  // Option (right) -> KEY_RIGHTALT
        (62, 97),  // Control (right) -> KEY_RIGHTCTRL
        (63, 464),  // Function (Fn) -> KEY_FN (best-effort; not all kernels expose this)
        (123, 105),  // Left -> KEY_LEFT
        (124, 106),  // Right -> KEY_RIGHT
        (125, 108),  // Down -> KEY_DOWN
        (126, 103),  // Up -> KEY_UP
        (122, 59),  // F1 -> KEY_F1
        (120, 60),  // F2 -> KEY_F2
        (99, 61),  // F3 -> KEY_F3
        (118, 62),  // F4 -> KEY_F4
        (96, 63),  // F5 -> KEY_F5
        (97, 64),  // F6 -> KEY_F6
        (98, 65),  // F7 -> KEY_F7
        (100, 66),  // F8 -> KEY_F8
        (101, 67),  // F9 -> KEY_F9
        (109, 68),  // F10 -> KEY_F10
        (103, 87),  // F11 -> KEY_F11
        (111, 88),  // F12 -> KEY_F12
    ]
}

/// Translate a macOS virtual key code to the Linux `KEY_*` code at the same
/// physical position.
pub fn mac_to_linux(mac_code: u16) -> (linux_code: Option<u16>)
    ensures
        linux_code == spec_mac_to_linux(mac_code),
{
    match mac_code {
        0 => Some(30),
        1 => Some(31),
        2 => Some(32),
        3 => Some(33),
        4 => Some(35),
        5 => Some(34),
        6 => Some(44),
        7 => Some(45),
        8 => Some(46),
        9 => Some(47),
        11 => Some(48),
        12 => Some(16),
        13 => Some(17),
        14 => Some(18),
        15 => Some(19),
        16 => Some(21),
        17 => Some(20),
        18 => Some(2),
        19 => Some(3),
        20 => Some(4),
        21 => Some(5),
        22 => Some(7),
        23 => Some(6),
        24 => Some(13),
        25 => Some(10),
        26 => Some(8),
        27 => Some(12),
        28 => Some(9),
        29 => Some(11),
        30 => Some(27),
        31 => Some(24),
        32 => Some(22),
        33 => Some(26),
        34 => Some(23),
        35 => Some(25),
        36 => Some(28),
        37 => Some(38),
        38 => Some(36),
        39 => Some(40),
        40 => Some(37),
        41 => Some(39),
        42 => Some(43),
        43 => Some(51),
        44 => Some(53),
        45 => Some(49),
        46 => Some(50),
        47 => Some(52),
        48 => Some(15),
        49 => Some(57),
        50 => Some(41),
        51 => Some(14),
        53 => Some(1),
        54 => Some(126),
        55 => Some(125),
        56 => Some(42),
        57 => Some(58),
        58 => Some(56),
        59 => Some(29),
        60 => Some(54),
        61 => Some(100),
        62 => Some(97),
        63 => Some(464),
        96 => Some(63),
        97 => Some(64),
        98 => Some(65),
        99 => Some(61),
        100 => Some(66),
        101 => Some(67),
        103 => Some(87),
        109 => Some(68),
        111 => Some(88),
        115 => Some(102),
        116 => Some(104),
        117 => Some(111),
        118 => Some(62),
        119 => Some(107),
        120 => Some(60),
        121 => Some(109),
        122 => Some(59),
        123 => Some(105),
        124 => Some(106),
        125 => Some(108),
        126 => Some(103),
        _ => None,
    }
}

/// Translate a Linux `KEY_*` code to the macOS virtual key code at the same
/// physical position.
pub fn linux_to_mac(linux_code: u16) -> (mac_code: Option<u16>)
    ensures
        mac_code == spec_linux_to_mac(linux_code),
{
    match linux_code {
        1 => Some(53),
        2 => Some(18),
        3 => Some(19),
        4 => Some(20),
        5 => Some(21),
        6 => Some(23),
        7 => Some(22),
        8 => Some(26),
        9 => Some(28),
        10 => Some(25),
        11 => Some(29),
        12 => Some(27),
        13 => Some(24),
        14 => Some(51),
        15 => Some(48),
        16 => Some(12),
        17 => Some(13),
        18 => Some(14),
        19 => Some(15),
        20 => Some(17),
        21 => Some(16),
        22 => Some(32),
        23 => Some(34),
        24 => Some(31),
        25 => Some(35),
        26 => Some(33),
        27 => Some(30),
        28 => Some(36),
        29 => Some(59),
        30 => Some(0),
        31 => Some(1),
        32 => Some(2),
        33 => Some(3),
        34 => Some(5),
        35 => Some(4),
        36 => Some(38),
        37 => Some(40),
        38 => Some(37),
        39 => Some(41),
        40 => Some(39),
        41 => Some(50),
        42 => Some(56),
        43 => Some(42),
        44 => Some(6),
        45 => Some(7),
        46 => Some(8),
        47 => Some(9),
        48 => Some(11),
        49 => Some(45),
        50 => Some(46),
        51 => Some(43),
        52 => Some(47),
        53 => Some(44),
        54 => Some(60),
        56 => Some(58),
        57 => Some(49),
        58 => Some(57),
        59 => Some(122),
        60 => Some(120),
        61 => Some(99),
        62 => Some(118),
        63 => Some(96),
        64 => Some(97),
        65 => Some(98),
        66 => Some(100),
        67 => Some(101),
        68 => Some(109),
        87 => Some(103),
        88 => Some(111),
        97 => Some(62),
        100 => Some(61),
        102 => Some(115),
        103 => Some(126),
        104 => Some(116),
        105 => Some(123),
        106 => Some(124),
        107 => Some(119),
        108 => Some(125),
        109 => Some(121),
        111 => Some(117),
        125 => Some(55),
        126 => Some(54),
        464 => Some(63),
        _ => None,
    }
}

/// The key table, one (macOS code, Linux code) pair per mapped key.
pub fn mac_to_linux_table() -> (table: Vec<(u16, u16)>)
    ensures
        table@ == spec_key_table(),
{
    vec![
        (0, 30),  // A -> KEY_A
        (1, 31),  // S -> KEY_S
        (2, 32),  // D -> KEY_D
        (3, 33),  // F -> KEY_F
        (4, 35),  // H -> KEY_H
        (5, 34),  // G -> KEY_G
        (6, 44),  // Z -> KEY_Z
        (7, 45),  // X -> KEY_X
        (8, 46),  // C -> KEY_C
        (9, 47),  // V -> KEY_V
        (11, 48),  // B -> KEY_B
        (12, 16),  // Q -> KEY_Q
        (13, 17),  // W -> KEY_W
        (14, 18),  // E -> KEY_E
        (15, 19),  // R -> KEY_R
        (16, 21),  // Y -> KEY_Y
        (17, 20),  // T -> KEY_T
        (31, 24),  // O -> KEY_O
        (32, 22),  // U -> KEY_U
        (34, 23),  // I -> KEY_I
        (35, 25),  // P -> KEY_P
        (37, 38),  // L -> KEY_L
        (38, 36),  // J -> KEY_J
        (40, 37),  // K -> KEY_K
        (45, 49),  // N -> KEY_N
        (46, 50),  // M -> KEY_M
        (18, 2),  // 1 -> KEY_1
        (19, 3),  // 2 -> KEY_2
        (20, 4),  // 3 -> KEY_3
        (21, 5),  // 4 -> KEY_4
        (22, 7),  // 6 -> KEY_6
        (23, 6),  // 5 -> KEY_5 (Mac's odd ordering, verified against HIToolbox)
        (25, 10),  // 9 -> KEY_9
        (26, 8),  // 7 -> KEY_7
        (28, 9),  // 8 -> KEY_8
        (29, 11),  // 0 -> KEY_0
        (24, 13),  // = -> KEY_EQUAL
        (27, 12),  // - -> KEY_MINUS
        (30, 27),  // ] -> KEY_RIGHTBRACE
        (33, 26),  // [ -> KEY_LEFTBRACE
        (39, 40),  // ' -> KEY_APOSTROPHE
        (41, 39),  // ; -> KEY_SEMICOLON
        (42, 43),  // \ -> KEY_BACKSLASH
        (43, 51),  // , -> KEY_COMMA
        (44, 53),  // / -> KEY_SLASH
        (47, 52),  // . -> KEY_DOT
        (50, 41),  // ` -> KEY_GRAVE
        (36, 28),  // Return -> KEY_ENTER
        (48, 15),  // Tab -> KEY_TAB
        (49, 57),  // Space -> KEY_SPACE
        (51, 14),  // Delete (backspace) -> KEY_BACKSPACE
        (53, 1),  // Escape -> KEY_ESC
        (117, 111),  // Forward Delete -> KEY_DELETE
        (115, 102),  // Home -> KEY_HOME
        (119, 107),  // End -> KEY_END
        (116, 104),  // Page Up -> KEY_PAGEUP
        (121, 109),  // Page Down -> KEY_PAGEDOWN
        (54, 126),  // Command (right) -> KEY_RIGHTMETA
        (55, 125),  // Command (left) -> KEY_LEFTMETA
        (56, 42),  // Shift (left) -> KEY_LEFTSHIFT
        (57, 58),  // Caps Lock -> KEY_CAPSLOCK
        (58, 56),  // Option (left) -> KEY_LEFTALT
        (59, 29),  // Control (left) -> KEY_LEFTCTRL
        (60, 54),  // Shift (right) -> KEY_RIGHTSHIFT
        (61, 100),  // Option (right) -> KEY_RIGHTALT
        (62, 97),  // Control (right) -> KEY_RIGHTCTRL
        (63, 464),  // Function (Fn) -> KEY_FN (best-effort; not all kernels expose this)
        (123, 105),  // Left -> KEY_LEFT
        (124, 106),  // Right -> KEY_RIGHT
        (125, 108),  // Down -> KEY_DOWN
        (126, 103),  // Up -> KEY_UP
        (122, 59),  // F1 -> KEY_F1
        (120, 60),  // F2 -> KEY_F2
        (99, 61),  // F3 -> KEY_F3
        (118, 62),  // F4 -> KEY_F4
        (96, 63),  // F5 -> KEY_F5
        (97, 64),  // F6 -> KEY_F6
        (98, 65),  // F7 -> KEY_F7
        (100, 66),  // F8 -> KEY_F8
        (101, 67),  // F9 -> KEY_F9
        (109, 68),  // F10 -> KEY_F10
        (103, 87),  // F11 -> KEY_F11
        (111, 88),  // F12 -> KEY_F12
    ]
}

/// Wire mouse `button` index (0 primary, 1 secondary, 2 middle) to the
/// Linux `BTN_*` code.
pub open spec fn spec_button_to_linux(button: u8) -> Option<u16> {
    match button {
        0 => Some(0x110u16),
        1 => Some(0x111u16),
        2 => Some(0x112u16),
        _ => None,
    }
}

/// Linux `BTN_*` code to the wire mouse `button` index.
pub open spec fn spec_linux_to_button(linux_code: u16) -> Option<u8> {
    if linux_code == 0x110 {
        Some(0u8)
    } else if linux_code == 0x111 {
        Some(1u8)
    } else if linux_code == 0x112 {
        Some(2u8)
    } else {
        None
    }
}

/// `BTN_LEFT` / `BTN_RIGHT` / `BTN_MIDDLE` for wire button 0 / 1 / 2.
pub fn button_to_linux(button: u8) -> (linux_code: Option<u16>)
    ensures
        linux_code == spec_button_to_linux(button),
{
    match button {
        0 => Some(0x110),
        1 => Some(0x111),
        2 => Some(0x112),
        _ => None,
    }
}

/// The wire button index of a Linux mouse-button code, if it is one of the
/// three that the protocol carries.
pub fn linux_to_button(linux_code: u16) -> (button: Option<u8>)
    ensures
        button == spec_linux_to_button(linux_code),
{
    if linux_code == 0x110 {
        Some(0)
    } else if linux_code == 0x111 {
        Some(1)
    } else if linux_code == 0x112 {
        Some(2)
    } else {
        None
    }
}

/// The position of a macOS code in the key table (-1 if it has none).
pub open spec fn key_table_index_of_mac(code: u16) -> int {
    match code {
        0 => 0,
        1 => 1,
        2 => 2,
        3 => 3,
        4 => 4,
        5 => 5,
        6 => 6,
        7 => 7,
        8 => 8,
        9 => 9,
        11 => 10,
        12 => 11,
        13 => 12,
        14 => 13,
        15 => 14,
        16 => 15,
        17 => 16,
        31 => 17,
        32 => 18,
        34 => 19,
        35 => 20,
        37 => 21,
        38 => 22,
        40 => 23,
        45 => 24,
        46 => 25,
        18 => 26,
        19 => 27,
        20 => 28,
        21 => 29,
        22 => 30,
        23 => 31,
        25 => 32,
        26 => 33,
        28 => 34,
        29 => 35,
        24 => 36,
        27 => 37,
        30 => 38,
        33 => 39,
        39 => 40,
        41 => 41,
        42 => 42,
        43 => 43,
        44 => 44,
        47 => 45,
        50 => 46,
        36 => 47,
        48 => 48,
        49 => 49,
        51 => 50,
        53 => 51,
        117 => 52,
        115 => 53,
        119 => 54,
        116 => 55,
        121 => 56,
        54 => 57,
        55 => 58,
        56 => 59,
        57 => 60,
        58 => 61,
        59 => 62,
        60 => 63,
        61 => 64,
        62 => 65,
        63 => 66,
        123 => 67,
        124 => 68,
        125 => 69,
        126 => 70,
        122 => 71,
        120 => 72,
        99 => 73,
        118 => 74,
        96 => 75,
        97 => 76,
        98 => 77,
        100 => 78,
        101 => 79,
        109 => 80,
        103 => 81,
        111 => 82,
        _ => -1,
    }
}

/// The position of a Linux code in the key table (-1 if it has none).
pub open spec fn key_table_index_of_linux(code: u16) -> int {
    match code {
        30 => 0,
        31 => 1,
        32 => 2,
        33 => 3,
        35 => 4,
        34 => 5,
        44 => 6,
        45 => 7,
        46 => 8,
        47 => 9,
        48 => 10,
        16 => 11,
        17 => 12,
        18 => 13,
        19 => 14,
        21 => 15,
        20 => 16,
        24 => 17,
        22 => 18,
        23 => 19,
        25 => 20,
        38 => 21,
        36 => 22,
        37 => 23,
        49 => 24,
        50 => 25,
        2 => 26,
        3 => 27,
        4 => 28,
        5 => 29,
        7 => 30,
        6 => 31,
        10 => 32,
        8 => 33,
        9 => 34,
        11 => 35,
        13 => 36,
        12 => 37,
        27 => 38,
        26 => 39,
        40 => 40,
        39 => 41,
        43 => 42,
        51 => 43,
        53 => 44,
        52 => 45,
        41 => 46,
        28 => 47,
        15 => 48,
        57 => 49,
        14 => 50,
        1 => 51,
        111 => 52,
        102 => 53,
        107 => 54,
        104 => 55,
        109 => 56,
        126 => 57,
        125 => 58,
        42 => 59,
        58 => 60,
        56 => 61,
        29 => 62,
        54 => 63,
        100 => 64,
        97 => 65,
        464 => 66,
        105 => 67,
        106 => 68,
        108 => 69,
        103 => 70,
        59 => 71,
        60 => 72,
        61 => 73,
        62 => 74,
        63 => 75,
        64 => 76,
        65 => 77,
        66 => 78,
        67 => 79,
        68 => 80,
        87 => 81,
        88 => 82,
        _ => -1,
    }
}

/// A code has a mapping exactly when the key table holds a pair with it:
/// the lookups and the table agree entry for entry, in both directions.
pub proof fn lemma_key_table_complete(mac_code: u16, linux_code: u16)
    ensures
        spec_mac_to_linux(mac_code) == Some(linux_code) <==> exists|i: int|
            0 <= i < spec_key_table().len() && #[trigger] spec_key_table()[i] == (mac_code, linux_code),
        spec_mac_to_linux(mac_code) is Some <==> exists|i: int|
            0 <= i < spec_key_table().len() && (#[trigger] spec_key_table()[i]).0 == mac_code,
        spec_linux_to_mac(linux_code) is Some <==> exists|i: int|
            0 <= i < spec_key_table().len() && (#[trigger] spec_key_table()[i]).1 == linux_code,
{
    let t = spec_key_table();
    assert(t.len() == 83);
    if spec_mac_to_linux(mac_code) is Some {
        let i = key_table_index_of_mac(mac_code);
        assert(0 <= i < 83 && t[i] == (mac_code, spec_mac_to_linux(mac_code)->0));
    }
    if spec_linux_to_mac(linux_code) is Some {
        let i = key_table_index_of_linux(linux_code);
        assert(0 <= i < 83 && t[i] == (spec_linux_to_mac(linux_code)->0, linux_code));
    }
    assert forall|i: int| 0 <= i < t.len() implies spec_mac_to_linux(#[trigger] t[i].0) == Some(t[i].1)
        && spec_linux_to_mac(t[i].1) == Some(t[i].0) by {
        lemma_key_table_agrees(i);
    }
}

/// The key table is one-to-one: a macOS code maps to a Linux code exactly
/// when that Linux code maps back to it.
pub proof fn lemma_keymap_inverse(mac_code: u16, linux_code: u16)
    ensures
        spec_mac_to_linux(mac_code) == Some(linux_code) <==> spec_linux_to_mac(linux_code) == Some(
            mac_code,
        ),
{
}

/// The mouse-button table is one-to-one as well.
pub proof fn lemma_button_map_inverse(button: u8, linux_code: u16)
    ensures
        spec_button_to_linux(button) == Some(linux_code) <==> spec_linux_to_button(linux_code)
            == Some(button),
{
}

/// No mouse-button code is also a keyboard code of the key table, so a
/// button event can never be mistaken for a key.
pub proof fn lemma_buttons_are_not_keys(linux_code: u16)
    ensures
        spec_linux_to_button(linux_code) is Some ==> spec_linux_to_mac(linux_code) is None,
{
}

/// Every pair of the key table is a mapping of both lookups, and the table
/// holds one pair per mapped key.
pub proof fn lemma_key_table_agrees(i: int)
    requires
        0 <= i < spec_key_table().len(),
    ensures
        spec_mac_to_linux(spec_key_table()[i].0) == Some(spec_key_table()[i].1),
        spec_linux_to_mac(spec_key_table()[i].1) == Some(spec_key_table()[i].0),
        spec_key_table().len() == 83,
{
}

} // verus!
