//! Naming of the side buttons: from a scan code to a button identity.

use vstd::prelude::*;

verus! {

/// Whether `scancode` is sent by a side button pressed while G-Shift is held.
pub open spec fn is_shifted(scancode: int) -> bool {
    4 <= scancode <= 15
}

/// The number printed on the button that sends `scancode`, from 9 to 20, or
/// `None` where no side button sends it.
///
/// Unshifted, G9 to G18 send 30 to 39 and G19, G20 send 45, 46. With G-Shift
/// held, G9 to G20 send 4 to 15.
pub open spec fn button_number(scancode: int) -> Option<int> {
    if is_shifted(scancode) {
        Some(scancode + 5)
    } else if 30 <= scancode <= 39 {
        Some(scancode - 21)
    } else if 45 <= scancode <= 46 {
        Some(scancode - 26)
    } else {
        None
    }
}

/// The character for a single decimal digit.
pub open spec fn digit(d: int) -> char {
    ((48 + d) as u8) as char
}

/// The decimal numeral for a button number (below 100).
pub open spec fn numeral(n: int) -> Seq<char> {
    if n < 10 {
        seq![digit(n)]
    } else {
        seq![digit(n / 10), digit(n % 10)]
    }
}

/// The identity of a button given its number and whether G-Shift is held:
/// `G` and the number, behind `G_shift_` when shifted.
pub open spec fn identity(number: int, shifted: bool) -> Seq<char> {
    let plain = seq!['G'] + numeral(number);
    if shifted {
        "G_shift_"@ + plain
    } else {
        plain
    }
}

/// The identity that `scancode` resolves to; empty where there is none.
pub open spec fn button_name(scancode: int) -> Seq<char> {
    match button_number(scancode) {
        Some(number) => identity(number, is_shifted(scancode)),
        None => Seq::empty(),
    }
}

/// The scan code that the button with this number sends while G-Shift is
/// not held.
pub open spec fn unshifted_code(number: int) -> int {
    if number <= 18 {
        number + 21
    } else {
        number + 26
    }
}

/// A scan code of the G-Shift range names the same button as the unshifted
/// code of that button, behind `G_shift_`.
pub proof fn lemma_shift_qualifies(scancode: int)
    requires
        is_shifted(scancode),
    ensures
        button_number(unshifted_code(scancode + 5)) == button_number(scancode),
        button_name(scancode) == "G_shift_"@ + button_name(unshifted_code(scancode + 5)),
{
}

/// Resolves a scan code to the identity of the button that sent it. Codes
/// that no side button sends resolve to the empty identity.
pub fn get_button(scancode: i32) -> (name: &'static str)
    ensures
        name@ == button_name(scancode as int),
{
    proof {
        reveal_strlit("G_shift_");
    }
    match scancode {
        4 => {
            proof {
                reveal_strlit("G_shift_G9");
            }
            "G_shift_G9"
        },
        5 => {
            proof {
                reveal_strlit("G_shift_G10");
            }
            "G_shift_G10"
        },
        6 => {
            proof {
                reveal_strlit("G_shift_G11");
            }
            "G_shift_G11"
        },
        7 => {
            proof {
                reveal_strlit("G_shift_G12");
            }
            "G_shift_G12"
        },
        8 => {
            proof {
                reveal_strlit("G_shift_G13");
            }
            "G_shift_G13"
        },
        9 => {
            proof {
                reveal_strlit("G_shift_G14");
            }
            "G_shift_G14"
        },
        10 => {
            proof {
                reveal_strlit("G_shift_G15");
            }
            "G_shift_G15"
        },
        11 => {
            proof {
                reveal_strlit("G_shift_G16");
            }
            "G_shift_G16"
        },
        12 => {
            proof {
                reveal_strlit("G_shift_G17");
            }
            "G_shift_G17"
        },
        13 => {
            proof {
                reveal_strlit("G_shift_G18");
            }
            "G_shift_G18"
        },
        14 => {
            proof {
                reveal_strlit("G_shift_G19");
            }
            "G_shift_G19"
        },
        15 => {
            proof {
                reveal_strlit("G_shift_G20");
            }
            "G_shift_G20"
        },
        30 => {
            proof {
                reveal_strlit("G9");
            }
            "G9"
        },
        31 => {
            proof {
                reveal_strlit("G10");
            }
            "G10"
        },
        32 => {
            proof {
                reveal_strlit("G11");
            }
            "G11"
        },
        33 => {
            proof {
                reveal_strlit("G12");
            }
            "G12"
        },
        34 => {
            proof {
                reveal_strlit("G13");
            }
            "G13"
        },
        35 => {
            proof {
                reveal_strlit("G14");
            }
            "G14"
        },
        36 => {
            proof {
                reveal_strlit("G15");
            }
            "G15"
        },
        37 => {
            proof {
                reveal_strlit("G16");
            }
            "G16"
        },
        38 => {
            proof {
                reveal_strlit("G17");
            }
            "G17"
        },
        39 => {
            proof {
                reveal_strlit("G18");
            }
            "G18"
        },
        45 => {
            proof {
                reveal_strlit("G19");
            }
            "G19"
        },
        46 => {
            proof {
                reveal_strlit("G20");
            }
            "G20"
        },
        _ => {
            proof {
                reveal_strlit("");
            }
            ""
        },
    }
}

} // verus!
