//! Distinct keys have distinct names, so a name in the config file stands
//! for one key only.

use crate::keys::{decimal, key_name, lemma_unknown_name, lemma_unknown_names_distinct, Key};
use vstd::prelude::*;

verus! {

/// Reads a key name back: the key that `key_name` gives `s`, where `s` is
/// the name of a key with a fixed name; `None` for the names of unknown keys.
spec fn key_of_name(s: Seq<char>) -> Option<Key> {
    if s.len() >= 10 && s[0] == 'U' && s[1] == 'n' {
        None
    }
    else if s.len() == 1 {
        if s[0] == '0' {
            Some(Key::Num0)
        } else if s[0] == '1' {
            Some(Key::Num1)
        } else if s[0] == '2' {
            Some(Key::Num2)
        } else if s[0] == '3' {
            Some(Key::Num3)
        } else if s[0] == '4' {
            Some(Key::Num4)
        } else if s[0] == '5' {
            Some(Key::Num5)
        } else if s[0] == '6' {
            Some(Key::Num6)
        } else if s[0] == '7' {
            Some(Key::Num7)
        } else if s[0] == '8' {
            Some(Key::Num8)
        } else {
            Some(Key::Num9)
        }
    }
    else if s.len() == 2 {
        if s[1] == '1' {
            Some(Key::F1)
        } else if s[1] == '2' {
            Some(Key::F2)
        } else if s[1] == '3' {
            Some(Key::F3)
        } else if s[1] == '4' {
            Some(Key::F4)
        } else if s[1] == '5' {
            Some(Key::F5)
        } else if s[1] == '6' {
            Some(Key::F6)
        } else if s[1] == '7' {
            Some(Key::F7)
        } else if s[1] == '8' {
            Some(Key::F8)
        } else {
            Some(Key::F9)
        }
    }
    else if s.len() == 3 {
        if s[0] == 'A' {
            Some(Key::Alt)
        } else if s[0] == 'D' {
            Some(Key::Dot)
        } else if s[0] == 'E' {
            Some(Key::End)
        } else if s[0] == 'F' {
            if s[2] == '0' {
                Some(Key::F10)
            } else if s[2] == '1' {
                Some(Key::F11)
            } else {
                Some(Key::F12)
            }
        } else if s[0] == 'K' {
            if s[2] == '0' {
                Some(Key::Kp0)
            } else if s[2] == '1' {
                Some(Key::Kp1)
            } else if s[2] == '2' {
                Some(Key::Kp2)
            } else if s[2] == '3' {
                Some(Key::Kp3)
            } else if s[2] == '4' {
                Some(Key::Kp4)
            } else if s[2] == '5' {
                Some(Key::Kp5)
            } else if s[2] == '6' {
                Some(Key::Kp6)
            } else if s[2] == '7' {
                Some(Key::Kp7)
            } else if s[2] == '8' {
                Some(Key::Kp8)
            } else {
                Some(Key::Kp9)
            }
        } else {
            Some(Key::Tab)
        }
    }
    else if s.len() == 4 {
        if s[0] == 'H' {
            Some(Key::Home)
        } else {
            if s[3] == 'A' {
                Some(Key::KeyA)
            } else if s[3] == 'B' {
                Some(Key::KeyB)
            } else if s[3] == 'C' {
                Some(Key::KeyC)
            } else if s[3] == 'D' {
                Some(Key::KeyD)
            } else if s[3] == 'E' {
                Some(Key::KeyE)
            } else if s[3] == 'F' {
                Some(Key::KeyF)
            } else if s[3] == 'G' {
                Some(Key::KeyG)
            } else if s[3] == 'H' {
                Some(Key::KeyH)
            } else if s[3] == 'I' {
                Some(Key::KeyI)
            } else if s[3] == 'J' {
                Some(Key::KeyJ)
            } else if s[3] == 'K' {
                Some(Key::KeyK)
            } else if s[3] == 'L' {
                Some(Key::KeyL)
            } else if s[3] == 'M' {
                Some(Key::KeyM)
            } else if s[3] == 'N' {
                Some(Key::KeyN)
            } else if s[3] == 'O' {
                Some(Key::KeyO)
            } else if s[3] == 'P' {
                Some(Key::KeyP)
            } else if s[3] == 'Q' {
                Some(Key::KeyQ)
            } else if s[3] == 'R' {
                Some(Key::KeyR)
            } else if s[3] == 'S' {
                Some(Key::KeyS)
            } else if s[3] == 'T' {
                Some(Key::KeyT)
            } else if s[3] == 'U' {
                Some(Key::KeyU)
            } else if s[3] == 'V' {
                Some(Key::KeyV)
            } else if s[3] == 'W' {
                Some(Key::KeyW)
            } else if s[3] == 'X' {
                Some(Key::KeyX)
            } else if s[3] == 'Y' {
                Some(Key::KeyY)
            } else {
                Some(Key::KeyZ)
            }
        }
    }
    else if s.len() == 5 {
        if s[0] == 'A' {
            Some(Key::AltGr)
        } else if s[0] == 'C' {
            Some(Key::Comma)
        } else if s[0] == 'E' {
            Some(Key::Equal)
        } else if s[0] == 'M' {
            Some(Key::Minus)
        } else if s[0] == 'P' {
            Some(Key::Pause)
        } else if s[0] == 'Q' {
            Some(Key::Quote)
        } else {
            if s[1] == 'l' {
                Some(Key::Slash)
            } else {
                Some(Key::Space)
            }
        }
    }
    else if s.len() == 6 {
        if s[0] == 'D' {
            Some(Key::Delete)
        } else if s[0] == 'E' {
            Some(Key::Escape)
        } else if s[0] == 'I' {
            Some(Key::Insert)
        } else if s[0] == 'K' {
            Some(Key::KpPlus)
        } else if s[0] == 'P' {
            Some(Key::PageUp)
        } else {
            Some(Key::Return)
        }
    }
    else if s.len() == 7 {
        if s[0] == 'K' {
            Some(Key::KpMinus)
        } else if s[0] == 'N' {
            Some(Key::NumLock)
        } else {
            Some(Key::UpArrow)
        }
    }
    else if s.len() == 8 {
        if s[0] == 'C' {
            Some(Key::CapsLock)
        } else if s[0] == 'F' {
            Some(Key::Function)
        } else if s[0] == 'K' {
            if s[2] == 'D' {
                if s[3] == 'e' {
                    Some(Key::KpDelete)
                } else {
                    Some(Key::KpDivide)
                }
            } else {
                Some(Key::KpReturn)
            }
        } else if s[0] == 'M' {
            Some(Key::MetaLeft)
        } else {
            Some(Key::PageDown)
        }
    }
    else if s.len() == 9 {
        if s[0] == 'B' {
            if s[4] == 'Q' {
                Some(Key::BackQuote)
            } else if s[4] == 'S' {
                Some(Key::BackSlash)
            } else {
                Some(Key::Backspace)
            }
        } else if s[0] == 'D' {
            Some(Key::DownArrow)
        } else if s[0] == 'L' {
            Some(Key::LeftArrow)
        } else if s[0] == 'M' {
            Some(Key::MetaRight)
        } else {
            if s[1] == 'e' {
                Some(Key::SemiColon)
            } else {
                Some(Key::ShiftLeft)
            }
        }
    }
    else if s.len() == 10 {
        if s[0] == 'K' {
            Some(Key::KpMultiply)
        } else if s[0] == 'R' {
            Some(Key::RightArrow)
        } else {
            if s[1] == 'c' {
                Some(Key::ScrollLock)
            } else {
                Some(Key::ShiftRight)
            }
        }
    }
    else if s.len() == 11 {
        if s[0] == 'C' {
            Some(Key::ControlLeft)
        } else if s[0] == 'L' {
            Some(Key::LeftBracket)
        } else {
            Some(Key::PrintScreen)
        }
    }
    else if s.len() == 12 {
        if s[0] == 'C' {
            Some(Key::ControlRight)
        } else {
            Some(Key::RightBracket)
        }
    }
    else if s.len() == 13 {
        Some(Key::IntlBackslash)
    }
    else {
        None
    }
}

proof fn lemma_read_back_alt()
    ensures
        key_of_name(key_name(Key::Alt)) == Some(Key::Alt),
{
    reveal_strlit("Alt");
    assert(key_name(Key::Alt) =~= seq!['A', 'l', 't']);
}

proof fn lemma_read_back_altgr()
    ensures
        key_of_name(key_name(Key::AltGr)) == Some(Key::AltGr),
{
    reveal_strlit("AltGr");
    assert(key_name(Key::AltGr) =~= seq!['A', 'l', 't', 'G', 'r']);
}

proof fn lemma_read_back_backspace()
    ensures
        key_of_name(key_name(Key::Backspace)) == Some(Key::Backspace),
{
    reveal_strlit("Backspace");
    assert(key_name(Key::Backspace) =~= seq!['B', 'a', 'c', 'k', 's', 'p', 'a', 'c', 'e']);
}

proof fn lemma_read_back_capslock()
    ensures
        key_of_name(key_name(Key::CapsLock)) == Some(Key::CapsLock),
{
    reveal_strlit("CapsLock");
    assert(key_name(Key::CapsLock) =~= seq!['C', 'a', 'p', 's', 'L', 'o', 'c', 'k']);
}

proof fn lemma_read_back_controlleft()
    ensures
        key_of_name(key_name(Key::ControlLeft)) == Some(Key::ControlLeft),
{
    reveal_strlit("ControlLeft");
    assert(key_name(Key::ControlLeft) =~= seq!['C', 'o', 'n', 't', 'r', 'o', 'l', 'L', 'e', 'f', 't']);
}

proof fn lemma_read_back_controlright()
    ensures
        key_of_name(key_name(Key::ControlRight)) == Some(Key::ControlRight),
{
    reveal_strlit("ControlRight");
    assert(key_name(Key::ControlRight) =~= seq!['C', 'o', 'n', 't', 'r', 'o', 'l', 'R', 'i', 'g', 'h', 't']);
}

proof fn lemma_read_back_delete()
    ensures
        key_of_name(key_name(Key::Delete)) == Some(Key::Delete),
{
    reveal_strlit("Delete");
    assert(key_name(Key::Delete) =~= seq!['D', 'e', 'l', 'e', 't', 'e']);
}

proof fn lemma_read_back_downarrow()
    ensures
        key_of_name(key_name(Key::DownArrow)) == Some(Key::DownArrow),
{
    reveal_strlit("DownArrow");
    assert(key_name(Key::DownArrow) =~= seq!['D', 'o', 'w', 'n', 'A', 'r', 'r', 'o', 'w']);
}

proof fn lemma_read_back_end()
    ensures
        key_of_name(key_name(Key::End)) == Some(Key::End),
{
    reveal_strlit("End");
    assert(key_name(Key::End) =~= seq!['E', 'n', 'd']);
}

proof fn lemma_read_back_escape()
    ensures
        key_of_name(key_name(Key::Escape)) == Some(Key::Escape),
{
    reveal_strlit("Escape");
    assert(key_name(Key::Escape) =~= seq!['E', 's', 'c', 'a', 'p', 'e']);
}

proof fn lemma_read_back_f1()
    ensures
        key_of_name(key_name(Key::F1)) == Some(Key::F1),
{
    reveal_strlit("F1");
    assert(key_name(Key::F1) =~= seq!['F', '1']);
}

proof fn lemma_read_back_f10()
    ensures
        key_of_name(key_name(Key::F10)) == Some(Key::F10),
{
    reveal_strlit("F10");
    assert(key_name(Key::F10) =~= seq!['F', '1', '0']);
}

proof fn lemma_read_back_f11()
    ensures
        key_of_name(key_name(Key::F11)) == Some(Key::F11),
{
    reveal_strlit("F11");
    assert(key_name(Key::F11) =~= seq!['F', '1', '1']);
}

proof fn lemma_read_back_f12()
    ensures
        key_of_name(key_name(Key::F12)) == Some(Key::F12),
{
    reveal_strlit("F12");
    assert(key_name(Key::F12) =~= seq!['F', '1', '2']);
}

proof fn lemma_read_back_f2()
    ensures
        key_of_name(key_name(Key::F2)) == Some(Key::F2),
{
    reveal_strlit("F2");
    assert(key_name(Key::F2) =~= seq!['F', '2']);
}

proof fn lemma_read_back_f3()
    ensures
        key_of_name(key_name(Key::F3)) == Some(Key::F3),
{
    reveal_strlit("F3");
    assert(key_name(Key::F3) =~= seq!['F', '3']);
}

proof fn lemma_read_back_f4()
    ensures
        key_of_name(key_name(Key::F4)) == Some(Key::F4),
{
    reveal_strlit("F4");
    assert(key_name(Key::F4) =~= seq!['F', '4']);
}

proof fn lemma_read_back_f5()
    ensures
        key_of_name(key_name(Key::F5)) == Some(Key::F5),
{
    reveal_strlit("F5");
    assert(key_name(Key::F5) =~= seq!['F', '5']);
}

proof fn lemma_read_back_f6()
    ensures
        key_of_name(key_name(Key::F6)) == Some(Key::F6),
{
    reveal_strlit("F6");
    assert(key_name(Key::F6) =~= seq!['F', '6']);
}

proof fn lemma_read_back_f7()
    ensures
        key_of_name(key_name(Key::F7)) == Some(Key::F7),
{
    reveal_strlit("F7");
    assert(key_name(Key::F7) =~= seq!['F', '7']);
}

proof fn lemma_read_back_f8()
    ensures
        key_of_name(key_name(Key::F8)) == Some(Key::F8),
{
    reveal_strlit("F8");
    assert(key_name(Key::F8) =~= seq!['F', '8']);
}

proof fn lemma_read_back_f9()
    ensures
        key_of_name(key_name(Key::F9)) == Some(Key::F9),
{
    reveal_strlit("F9");
    assert(key_name(Key::F9) =~= seq!['F', '9']);
}

proof fn lemma_read_back_home()
    ensures
        key_of_name(key_name(Key::Home)) == Some(Key::Home),
{
    reveal_strlit("Home");
    assert(key_name(Key::Home) =~= seq!['H', 'o', 'm', 'e']);
}

proof fn lemma_read_back_leftarrow()
    ensures
        key_of_name(key_name(Key::LeftArrow)) == Some(Key::LeftArrow),
{
    reveal_strlit("LeftArrow");
    assert(key_name(Key::LeftArrow) =~= seq!['L', 'e', 'f', 't', 'A', 'r', 'r', 'o', 'w']);
}

proof fn lemma_read_back_metaleft()
    ensures
        key_of_name(key_name(Key::MetaLeft)) == Some(Key::MetaLeft),
{
    reveal_strlit("MetaLeft");
    assert(key_name(Key::MetaLeft) =~= seq!['M', 'e', 't', 'a', 'L', 'e', 'f', 't']);
}

proof fn lemma_read_back_metaright()
    ensures
        key_of_name(key_name(Key::MetaRight)) == Some(Key::MetaRight),
{
    reveal_strlit("MetaRight");
    assert(key_name(Key::MetaRight) =~= seq!['M', 'e', 't', 'a', 'R', 'i', 'g', 'h', 't']);
}

proof fn lemma_read_back_pagedown()
    ensures
        key_of_name(key_name(Key::PageDown)) == Some(Key::PageDown),
{
    reveal_strlit("PageDown");
    assert(key_name(Key::PageDown) =~= seq!['P', 'a', 'g', 'e', 'D', 'o', 'w', 'n']);
}

proof fn lemma_read_back_pageup()
    ensures
        key_of_name(key_name(Key::PageUp)) == Some(Key::PageUp),
{
    reveal_strlit("PageUp");
    assert(key_name(Key::PageUp) =~= seq!['P', 'a', 'g', 'e', 'U', 'p']);
}

proof fn lemma_read_back_return()
    ensures
        key_of_name(key_name(Key::Return)) == Some(Key::Return),
{
    reveal_strlit("Return");
    assert(key_name(Key::Return) =~= seq!['R', 'e', 't', 'u', 'r', 'n']);
}

proof fn lemma_read_back_rightarrow()
    ensures
        key_of_name(key_name(Key::RightArrow)) == Some(Key::RightArrow),
{
    reveal_strlit("RightArrow");
    assert(key_name(Key::RightArrow) =~= seq!['R', 'i', 'g', 'h', 't', 'A', 'r', 'r', 'o', 'w']);
}

proof fn lemma_read_back_shiftleft()
    ensures
        key_of_name(key_name(Key::ShiftLeft)) == Some(Key::ShiftLeft),
{
    reveal_strlit("ShiftLeft");
    assert(key_name(Key::ShiftLeft) =~= seq!['S', 'h', 'i', 'f', 't', 'L', 'e', 'f', 't']);
}

proof fn lemma_read_back_shiftright()
    ensures
        key_of_name(key_name(Key::ShiftRight)) == Some(Key::ShiftRight),
{
    reveal_strlit("ShiftRight");
    assert(key_name(Key::ShiftRight) =~= seq!['S', 'h', 'i', 'f', 't', 'R', 'i', 'g', 'h', 't']);
}

proof fn lemma_read_back_space()
    ensures
        key_of_name(key_name(Key::Space)) == Some(Key::Space),
{
    reveal_strlit("Space");
    assert(key_name(Key::Space) =~= seq!['S', 'p', 'a', 'c', 'e']);
}

proof fn lemma_read_back_tab()
    ensures
        key_of_name(key_name(Key::Tab)) == Some(Key::Tab),
{
    reveal_strlit("Tab");
    assert(key_name(Key::Tab) =~= seq!['T', 'a', 'b']);
}

proof fn lemma_read_back_uparrow()
    ensures
        key_of_name(key_name(Key::UpArrow)) == Some(Key::UpArrow),
{
    reveal_strlit("UpArrow");
    assert(key_name(Key::UpArrow) =~= seq!['U', 'p', 'A', 'r', 'r', 'o', 'w']);
}

proof fn lemma_read_back_printscreen()
    ensures
        key_of_name(key_name(Key::PrintScreen)) == Some(Key::PrintScreen),
{
    reveal_strlit("PrintScreen");
    assert(key_name(Key::PrintScreen) =~= seq!['P', 'r', 'i', 'n', 't', 'S', 'c', 'r', 'e', 'e', 'n']);
}

proof fn lemma_read_back_scrolllock()
    ensures
        key_of_name(key_name(Key::ScrollLock)) == Some(Key::ScrollLock),
{
    reveal_strlit("ScrollLock");
    assert(key_name(Key::ScrollLock) =~= seq!['S', 'c', 'r', 'o', 'l', 'l', 'L', 'o', 'c', 'k']);
}

proof fn lemma_read_back_pause()
    ensures
        key_of_name(key_name(Key::Pause)) == Some(Key::Pause),
{
    reveal_strlit("Pause");
    assert(key_name(Key::Pause) =~= seq!['P', 'a', 'u', 's', 'e']);
}

proof fn lemma_read_back_numlock()
    ensures
        key_of_name(key_name(Key::NumLock)) == Some(Key::NumLock),
{
    reveal_strlit("NumLock");
    assert(key_name(Key::NumLock) =~= seq!['N', 'u', 'm', 'L', 'o', 'c', 'k']);
}

proof fn lemma_read_back_backquote()
    ensures
        key_of_name(key_name(Key::BackQuote)) == Some(Key::BackQuote),
{
    reveal_strlit("BackQuote");
    assert(key_name(Key::BackQuote) =~= seq!['B', 'a', 'c', 'k', 'Q', 'u', 'o', 't', 'e']);
}

proof fn lemma_read_back_num1()
    ensures
        key_of_name(key_name(Key::Num1)) == Some(Key::Num1),
{
    reveal_strlit("1");
    assert(key_name(Key::Num1) =~= seq!['1']);
}

proof fn lemma_read_back_num2()
    ensures
        key_of_name(key_name(Key::Num2)) == Some(Key::Num2),
{
    reveal_strlit("2");
    assert(key_name(Key::Num2) =~= seq!['2']);
}

proof fn lemma_read_back_num3()
    ensures
        key_of_name(key_name(Key::Num3)) == Some(Key::Num3),
{
    reveal_strlit("3");
    assert(key_name(Key::Num3) =~= seq!['3']);
}

proof fn lemma_read_back_num4()
    ensures
        key_of_name(key_name(Key::Num4)) == Some(Key::Num4),
{
    reveal_strlit("4");
    assert(key_name(Key::Num4) =~= seq!['4']);
}

proof fn lemma_read_back_num5()
    ensures
        key_of_name(key_name(Key::Num5)) == Some(Key::Num5),
{
    reveal_strlit("5");
    assert(key_name(Key::Num5) =~= seq!['5']);
}

proof fn lemma_read_back_num6()
    ensures
        key_of_name(key_name(Key::Num6)) == Some(Key::Num6),
{
    reveal_strlit("6");
    assert(key_name(Key::Num6) =~= seq!['6']);
}

proof fn lemma_read_back_num7()
    ensures
        key_of_name(key_name(Key::Num7)) == Some(Key::Num7),
{
    reveal_strlit("7");
    assert(key_name(Key::Num7) =~= seq!['7']);
}

proof fn lemma_read_back_num8()
    ensures
        key_of_name(key_name(Key::Num8)) == Some(Key::Num8),
{
    reveal_strlit("8");
    assert(key_name(Key::Num8) =~= seq!['8']);
}

proof fn lemma_read_back_num9()
    ensures
        key_of_name(key_name(Key::Num9)) == Some(Key::Num9),
{
    reveal_strlit("9");
    assert(key_name(Key::Num9) =~= seq!['9']);
}

proof fn lemma_read_back_num0()
    ensures
        key_of_name(key_name(Key::Num0)) == Some(Key::Num0),
{
    reveal_strlit("0");
    assert(key_name(Key::Num0) =~= seq!['0']);
}

proof fn lemma_read_back_minus()
    ensures
        key_of_name(key_name(Key::Minus)) == Some(Key::Minus),
{
    reveal_strlit("Minus");
    assert(key_name(Key::Minus) =~= seq!['M', 'i', 'n', 'u', 's']);
}

proof fn lemma_read_back_equal()
    ensures
        key_of_name(key_name(Key::Equal)) == Some(Key::Equal),
{
    reveal_strlit("Equal");
    assert(key_name(Key::Equal) =~= seq!['E', 'q', 'u', 'a', 'l']);
}

proof fn lemma_read_back_keyq()
    ensures
        key_of_name(key_name(Key::KeyQ)) == Some(Key::KeyQ),
{
    reveal_strlit("KeyQ");
    assert(key_name(Key::KeyQ) =~= seq!['K', 'e', 'y', 'Q']);
}

proof fn lemma_read_back_keyw()
    ensures
        key_of_name(key_name(Key::KeyW)) == Some(Key::KeyW),
{
    reveal_strlit("KeyW");
    assert(key_name(Key::KeyW) =~= seq!['K', 'e', 'y', 'W']);
}

proof fn lemma_read_back_keye()
    ensures
        key_of_name(key_name(Key::KeyE)) == Some(Key::KeyE),
{
    reveal_strlit("KeyE");
    assert(key_name(Key::KeyE) =~= seq!['K', 'e', 'y', 'E']);
}

proof fn lemma_read_back_keyr()
    ensures
        key_of_name(key_name(Key::KeyR)) == Some(Key::KeyR),
{
    reveal_strlit("KeyR");
    assert(key_name(Key::KeyR) =~= seq!['K', 'e', 'y', 'R']);
}

proof fn lemma_read_back_keyt()
    ensures
        key_of_name(key_name(Key::KeyT)) == Some(Key::KeyT),
{
    reveal_strlit("KeyT");
    assert(key_name(Key::KeyT) =~= seq!['K', 'e', 'y', 'T']);
}

proof fn lemma_read_back_keyy()
    ensures
        key_of_name(key_name(Key::KeyY)) == Some(Key::KeyY),
{
    reveal_strlit("KeyY");
    assert(key_name(Key::KeyY) =~= seq!['K', 'e', 'y', 'Y']);
}

proof fn lemma_read_back_keyu()
    ensures
        key_of_name(key_name(Key::KeyU)) == Some(Key::KeyU),
{
    reveal_strlit("KeyU");
    assert(key_name(Key::KeyU) =~= seq!['K', 'e', 'y', 'U']);
}

proof fn lemma_read_back_keyi()
    ensures
        key_of_name(key_name(Key::KeyI)) == Some(Key::KeyI),
{
    reveal_strlit("KeyI");
    assert(key_name(Key::KeyI) =~= seq!['K', 'e', 'y', 'I']);
}

proof fn lemma_read_back_keyo()
    ensures
        key_of_name(key_name(Key::KeyO)) == Some(Key::KeyO),
{
    reveal_strlit("KeyO");
    assert(key_name(Key::KeyO) =~= seq!['K', 'e', 'y', 'O']);
}

proof fn lemma_read_back_keyp()
    ensures
        key_of_name(key_name(Key::KeyP)) == Some(Key::KeyP),
{
    reveal_strlit("KeyP");
    assert(key_name(Key::KeyP) =~= seq!['K', 'e', 'y', 'P']);
}

proof fn lemma_read_back_leftbracket()
    ensures
        key_of_name(key_name(Key::LeftBracket)) == Some(Key::LeftBracket),
{
    reveal_strlit("LeftBracket");
    assert(key_name(Key::LeftBracket) =~= seq!['L', 'e', 'f', 't', 'B', 'r', 'a', 'c', 'k', 'e', 't']);
}

proof fn lemma_read_back_rightbracket()
    ensures
        key_of_name(key_name(Key::RightBracket)) == Some(Key::RightBracket),
{
    reveal_strlit("RightBracket");
    assert(key_name(Key::RightBracket) =~= seq!['R', 'i', 'g', 'h', 't', 'B', 'r', 'a', 'c', 'k', 'e', 't']);
}

proof fn lemma_read_back_keya()
    ensures
        key_of_name(key_name(Key::KeyA)) == Some(Key::KeyA),
{
    reveal_strlit("KeyA");
    assert(key_name(Key::KeyA) =~= seq!['K', 'e', 'y', 'A']);
}

proof fn lemma_read_back_keys()
    ensures
        key_of_name(key_name(Key::KeyS)) == Some(Key::KeyS),
{
    reveal_strlit("KeyS");
    assert(key_name(Key::KeyS) =~= seq!['K', 'e', 'y', 'S']);
}

proof fn lemma_read_back_keyd()
    ensures
        key_of_name(key_name(Key::KeyD)) == Some(Key::KeyD),
{
    reveal_strlit("KeyD");
    assert(key_name(Key::KeyD) =~= seq!['K', 'e', 'y', 'D']);
}

proof fn lemma_read_back_keyf()
    ensures
        key_of_name(key_name(Key::KeyF)) == Some(Key::KeyF),
{
    reveal_strlit("KeyF");
    assert(key_name(Key::KeyF) =~= seq!['K', 'e', 'y', 'F']);
}

proof fn lemma_read_back_keyg()
    ensures
        key_of_name(key_name(Key::KeyG)) == Some(Key::KeyG),
{
    reveal_strlit("KeyG");
    assert(key_name(Key::KeyG) =~= seq!['K', 'e', 'y', 'G']);
}

proof fn lemma_read_back_keyh()
    ensures
        key_of_name(key_name(Key::KeyH)) == Some(Key::KeyH),
{
    reveal_strlit("KeyH");
    assert(key_name(Key::KeyH) =~= seq!['K', 'e', 'y', 'H']);
}

proof fn lemma_read_back_keyj()
    ensures
        key_of_name(key_name(Key::KeyJ)) == Some(Key::KeyJ),
{
    reveal_strlit("KeyJ");
    assert(key_name(Key::KeyJ) =~= seq!['K', 'e', 'y', 'J']);
}

proof fn lemma_read_back_keyk()
    ensures
        key_of_name(key_name(Key::KeyK)) == Some(Key::KeyK),
{
    reveal_strlit("KeyK");
    assert(key_name(Key::KeyK) =~= seq!['K', 'e', 'y', 'K']);
}

proof fn lemma_read_back_keyl()
    ensures
        key_of_name(key_name(Key::KeyL)) == Some(Key::KeyL),
{
    reveal_strlit("KeyL");
    assert(key_name(Key::KeyL) =~= seq!['K', 'e', 'y', 'L']);
}

proof fn lemma_read_back_semicolon()
    ensures
        key_of_name(key_name(Key::SemiColon)) == Some(Key::SemiColon),
{
    reveal_strlit("SemiColon");
    assert(key_name(Key::SemiColon) =~= seq!['S', 'e', 'm', 'i', 'C', 'o', 'l', 'o', 'n']);
}

proof fn lemma_read_back_quote()
    ensures
        key_of_name(key_name(Key::Quote)) == Some(Key::Quote),
{
    reveal_strlit("Quote");
    assert(key_name(Key::Quote) =~= seq!['Q', 'u', 'o', 't', 'e']);
}

proof fn lemma_read_back_backslash()
    ensures
        key_of_name(key_name(Key::BackSlash)) == Some(Key::BackSlash),
{
    reveal_strlit("BackSlash");
    assert(key_name(Key::BackSlash) =~= seq!['B', 'a', 'c', 'k', 'S', 'l', 'a', 's', 'h']);
}

proof fn lemma_read_back_intlbackslash()
    ensures
        key_of_name(key_name(Key::IntlBackslash)) == Some(Key::IntlBackslash),
{
    reveal_strlit("IntlBackslash");
    assert(key_name(Key::IntlBackslash) =~= seq!['I', 'n', 't', 'l', 'B', 'a', 'c', 'k', 's', 'l', 'a', 's', 'h']);
}

proof fn lemma_read_back_keyz()
    ensures
        key_of_name(key_name(Key::KeyZ)) == Some(Key::KeyZ),
{
    reveal_strlit("KeyZ");
    assert(key_name(Key::KeyZ) =~= seq!['K', 'e', 'y', 'Z']);
}

proof fn lemma_read_back_keyx()
    ensures
        key_of_name(key_name(Key::KeyX)) == Some(Key::KeyX),
{
    reveal_strlit("KeyX");
    assert(key_name(Key::KeyX) =~= seq!['K', 'e', 'y', 'X']);
}

proof fn lemma_read_back_keyc()
    ensures
        key_of_name(key_name(Key::KeyC)) == Some(Key::KeyC),
{
    reveal_strlit("KeyC");
    assert(key_name(Key::KeyC) =~= seq!['K', 'e', 'y', 'C']);
}

proof fn lemma_read_back_keyv()
    ensures
        key_of_name(key_name(Key::KeyV)) == Some(Key::KeyV),
{
    reveal_strlit("KeyV");
    assert(key_name(Key::KeyV) =~= seq!['K', 'e', 'y', 'V']);
}

proof fn lemma_read_back_keyb()
    ensures
        key_of_name(key_name(Key::KeyB)) == Some(Key::KeyB),
{
    reveal_strlit("KeyB");
    assert(key_name(Key::KeyB) =~= seq!['K', 'e', 'y', 'B']);
}

proof fn lemma_read_back_keyn()
    ensures
        key_of_name(key_name(Key::KeyN)) == Some(Key::KeyN),
{
    reveal_strlit("KeyN");
    assert(key_name(Key::KeyN) =~= seq!['K', 'e', 'y', 'N']);
}

proof fn lemma_read_back_keym()
    ensures
        key_of_name(key_name(Key::KeyM)) == Some(Key::KeyM),
{
    reveal_strlit("KeyM");
    assert(key_name(Key::KeyM) =~= seq!['K', 'e', 'y', 'M']);
}

proof fn lemma_read_back_comma()
    ensures
        key_of_name(key_name(Key::Comma)) == Some(Key::Comma),
{
    reveal_strlit("Comma");
    assert(key_name(Key::Comma) =~= seq!['C', 'o', 'm', 'm', 'a']);
}

proof fn lemma_read_back_dot()
    ensures
        key_of_name(key_name(Key::Dot)) == Some(Key::Dot),
{
    reveal_strlit("Dot");
    assert(key_name(Key::Dot) =~= seq!['D', 'o', 't']);
}

proof fn lemma_read_back_slash()
    ensures
        key_of_name(key_name(Key::Slash)) == Some(Key::Slash),
{
    reveal_strlit("Slash");
    assert(key_name(Key::Slash) =~= seq!['S', 'l', 'a', 's', 'h']);
}

proof fn lemma_read_back_insert()
    ensures
        key_of_name(key_name(Key::Insert)) == Some(Key::Insert),
{
    reveal_strlit("Insert");
    assert(key_name(Key::Insert) =~= seq!['I', 'n', 's', 'e', 'r', 't']);
}

proof fn lemma_read_back_kpreturn()
    ensures
        key_of_name(key_name(Key::KpReturn)) == Some(Key::KpReturn),
{
    reveal_strlit("KpReturn");
    assert(key_name(Key::KpReturn) =~= seq!['K', 'p', 'R', 'e', 't', 'u', 'r', 'n']);
}

proof fn lemma_read_back_kpminus()
    ensures
        key_of_name(key_name(Key::KpMinus)) == Some(Key::KpMinus),
{
    reveal_strlit("KpMinus");
    assert(key_name(Key::KpMinus) =~= seq!['K', 'p', 'M', 'i', 'n', 'u', 's']);
}

proof fn lemma_read_back_kpplus()
    ensures
        key_of_name(key_name(Key::KpPlus)) == Some(Key::KpPlus),
{
    reveal_strlit("KpPlus");
    assert(key_name(Key::KpPlus) =~= seq!['K', 'p', 'P', 'l', 'u', 's']);
}

proof fn lemma_read_back_kpmultiply()
    ensures
        key_of_name(key_name(Key::KpMultiply)) == Some(Key::KpMultiply),
{
    reveal_strlit("KpMultiply");
    assert(key_name(Key::KpMultiply) =~= seq!['K', 'p', 'M', 'u', 'l', 't', 'i', 'p', 'l', 'y']);
}

proof fn lemma_read_back_kpdivide()
    ensures
        key_of_name(key_name(Key::KpDivide)) == Some(Key::KpDivide),
{
    reveal_strlit("KpDivide");
    assert(key_name(Key::KpDivide) =~= seq!['K', 'p', 'D', 'i', 'v', 'i', 'd', 'e']);
}

proof fn lemma_read_back_kp0()
    ensures
        key_of_name(key_name(Key::Kp0)) == Some(Key::Kp0),
{
    reveal_strlit("Kp0");
    assert(key_name(Key::Kp0) =~= seq!['K', 'p', '0']);
}

proof fn lemma_read_back_kp1()
    ensures
        key_of_name(key_name(Key::Kp1)) == Some(Key::Kp1),
{
    reveal_strlit("Kp1");
    assert(key_name(Key::Kp1) =~= seq!['K', 'p', '1']);
}

proof fn lemma_read_back_kp2()
    ensures
        key_of_name(key_name(Key::Kp2)) == Some(Key::Kp2),
{
    reveal_strlit("Kp2");
    assert(key_name(Key::Kp2) =~= seq!['K', 'p', '2']);
}

proof fn lemma_read_back_kp3()
    ensures
        key_of_name(key_name(Key::Kp3)) == Some(Key::Kp3),
{
    reveal_strlit("Kp3");
    assert(key_name(Key::Kp3) =~= seq!['K', 'p', '3']);
}

proof fn lemma_read_back_kp4()
    ensures
        key_of_name(key_name(Key::Kp4)) == Some(Key::Kp4),
{
    reveal_strlit("Kp4");
    assert(key_name(Key::Kp4) =~= seq!['K', 'p', '4']);
}

proof fn lemma_read_back_kp5()
    ensures
        key_of_name(key_name(Key::Kp5)) == Some(Key::Kp5),
{
    reveal_strlit("Kp5");
    assert(key_name(Key::Kp5) =~= seq!['K', 'p', '5']);
}

proof fn lemma_read_back_kp6()
    ensures
        key_of_name(key_name(Key::Kp6)) == Some(Key::Kp6),
{
    reveal_strlit("Kp6");
    assert(key_name(Key::Kp6) =~= seq!['K', 'p', '6']);
}

proof fn lemma_read_back_kp7()
    ensures
        key_of_name(key_name(Key::Kp7)) == Some(Key::Kp7),
{
    reveal_strlit("Kp7");
    assert(key_name(Key::Kp7) =~= seq!['K', 'p', '7']);
}

proof fn lemma_read_back_kp8()
    ensures
        key_of_name(key_name(Key::Kp8)) == Some(Key::Kp8),
{
    reveal_strlit("Kp8");
    assert(key_name(Key::Kp8) =~= seq!['K', 'p', '8']);
}

proof fn lemma_read_back_kp9()
    ensures
        key_of_name(key_name(Key::Kp9)) == Some(Key::Kp9),
{
    reveal_strlit("Kp9");
    assert(key_name(Key::Kp9) =~= seq!['K', 'p', '9']);
}

proof fn lemma_read_back_kpdelete()
    ensures
        key_of_name(key_name(Key::KpDelete)) == Some(Key::KpDelete),
{
    reveal_strlit("KpDelete");
    assert(key_name(Key::KpDelete) =~= seq!['K', 'p', 'D', 'e', 'l', 'e', 't', 'e']);
}

proof fn lemma_read_back_function()
    ensures
        key_of_name(key_name(Key::Function)) == Some(Key::Function),
{
    reveal_strlit("Function");
    assert(key_name(Key::Function) =~= seq!['F', 'u', 'n', 'c', 't', 'i', 'o', 'n']);
}

proof fn lemma_chars_alt()
    ensures
        key_name(Key::Alt) == seq!['A', 'l', 't'],
{
    reveal_strlit("Alt");
    assert(key_name(Key::Alt) =~= seq!['A', 'l', 't']);
}

proof fn lemma_chars_altgr()
    ensures
        key_name(Key::AltGr) == seq!['A', 'l', 't', 'G', 'r'],
{
    reveal_strlit("AltGr");
    assert(key_name(Key::AltGr) =~= seq!['A', 'l', 't', 'G', 'r']);
}

proof fn lemma_chars_backspace()
    ensures
        key_name(Key::Backspace) == seq!['B', 'a', 'c', 'k', 's', 'p', 'a', 'c', 'e'],
{
    reveal_strlit("Backspace");
    assert(key_name(Key::Backspace) =~= seq!['B', 'a', 'c', 'k', 's', 'p', 'a', 'c', 'e']);
}

proof fn lemma_chars_capslock()
    ensures
        key_name(Key::CapsLock) == seq!['C', 'a', 'p', 's', 'L', 'o', 'c', 'k'],
{
    reveal_strlit("CapsLock");
    assert(key_name(Key::CapsLock) =~= seq!['C', 'a', 'p', 's', 'L', 'o', 'c', 'k']);
}

proof fn lemma_chars_controlleft()
    ensures
        key_name(Key::ControlLeft) == seq!['C', 'o', 'n', 't', 'r', 'o', 'l', 'L', 'e', 'f', 't'],
{
    reveal_strlit("ControlLeft");
    assert(key_name(Key::ControlLeft) =~= seq!['C', 'o', 'n', 't', 'r', 'o', 'l', 'L', 'e', 'f', 't']);
}

proof fn lemma_chars_controlright()
    ensures
        key_name(Key::ControlRight) == seq!['C', 'o', 'n', 't', 'r', 'o', 'l', 'R', 'i', 'g', 'h', 't'],
{
    reveal_strlit("ControlRight");
    assert(key_name(Key::ControlRight) =~= seq!['C', 'o', 'n', 't', 'r', 'o', 'l', 'R', 'i', 'g', 'h', 't']);
}

proof fn lemma_chars_delete()
    ensures
        key_name(Key::Delete) == seq!['D', 'e', 'l', 'e', 't', 'e'],
{
    reveal_strlit("Delete");
    assert(key_name(Key::Delete) =~= seq!['D', 'e', 'l', 'e', 't', 'e']);
}

proof fn lemma_chars_downarrow()
    ensures
        key_name(Key::DownArrow) == seq!['D', 'o', 'w', 'n', 'A', 'r', 'r', 'o', 'w'],
{
    reveal_strlit("DownArrow");
    assert(key_name(Key::DownArrow) =~= seq!['D', 'o', 'w', 'n', 'A', 'r', 'r', 'o', 'w']);
}

proof fn lemma_chars_end()
    ensures
        key_name(Key::End) == seq!['E', 'n', 'd'],
{
    reveal_strlit("End");
    assert(key_name(Key::End) =~= seq!['E', 'n', 'd']);
}

proof fn lemma_chars_escape()
    ensures
        key_name(Key::Escape) == seq!['E', 's', 'c', 'a', 'p', 'e'],
{
    reveal_strlit("Escape");
    assert(key_name(Key::Escape) =~= seq!['E', 's', 'c', 'a', 'p', 'e']);
}

proof fn lemma_chars_f1()
    ensures
        key_name(Key::F1) == seq!['F', '1'],
{
    reveal_strlit("F1");
    assert(key_name(Key::F1) =~= seq!['F', '1']);
}

proof fn lemma_chars_f10()
    ensures
        key_name(Key::F10) == seq!['F', '1', '0'],
{
    reveal_strlit("F10");
    assert(key_name(Key::F10) =~= seq!['F', '1', '0']);
}

proof fn lemma_chars_f11()
    ensures
        key_name(Key::F11) == seq!['F', '1', '1'],
{
    reveal_strlit("F11");
    assert(key_name(Key::F11) =~= seq!['F', '1', '1']);
}

proof fn lemma_chars_f12()
    ensures
        key_name(Key::F12) == seq!['F', '1', '2'],
{
    reveal_strlit("F12");
    assert(key_name(Key::F12) =~= seq!['F', '1', '2']);
}

proof fn lemma_chars_f2()
    ensures
        key_name(Key::F2) == seq!['F', '2'],
{
    reveal_strlit("F2");
    assert(key_name(Key::F2) =~= seq!['F', '2']);
}

proof fn lemma_chars_f3()
    ensures
        key_name(Key::F3) == seq!['F', '3'],
{
    reveal_strlit("F3");
    assert(key_name(Key::F3) =~= seq!['F', '3']);
}

proof fn lemma_chars_f4()
    ensures
        key_name(Key::F4) == seq!['F', '4'],
{
    reveal_strlit("F4");
    assert(key_name(Key::F4) =~= seq!['F', '4']);
}

proof fn lemma_chars_f5()
    ensures
        key_name(Key::F5) == seq!['F', '5'],
{
    reveal_strlit("F5");
    assert(key_name(Key::F5) =~= seq!['F', '5']);
}

proof fn lemma_chars_f6()
    ensures
        key_name(Key::F6) == seq!['F', '6'],
{
    reveal_strlit("F6");
    assert(key_name(Key::F6) =~= seq!['F', '6']);
}

proof fn lemma_chars_f7()
    ensures
        key_name(Key::F7) == seq!['F', '7'],
{
    reveal_strlit("F7");
    assert(key_name(Key::F7) =~= seq!['F', '7']);
}

proof fn lemma_chars_f8()
    ensures
        key_name(Key::F8) == seq!['F', '8'],
{
    reveal_strlit("F8");
    assert(key_name(Key::F8) =~= seq!['F', '8']);
}

proof fn lemma_chars_f9()
    ensures
        key_name(Key::F9) == seq!['F', '9'],
{
    reveal_strlit("F9");
    assert(key_name(Key::F9) =~= seq!['F', '9']);
}

proof fn lemma_chars_home()
    ensures
        key_name(Key::Home) == seq!['H', 'o', 'm', 'e'],
{
    reveal_strlit("Home");
    assert(key_name(Key::Home) =~= seq!['H', 'o', 'm', 'e']);
}

proof fn lemma_chars_leftarrow()
    ensures
        key_name(Key::LeftArrow) == seq!['L', 'e', 'f', 't', 'A', 'r', 'r', 'o', 'w'],
{
    reveal_strlit("LeftArrow");
    assert(key_name(Key::LeftArrow) =~= seq!['L', 'e', 'f', 't', 'A', 'r', 'r', 'o', 'w']);
}

proof fn lemma_chars_metaleft()
    ensures
        key_name(Key::MetaLeft) == seq!['M', 'e', 't', 'a', 'L', 'e', 'f', 't'],
{
    reveal_strlit("MetaLeft");
    assert(key_name(Key::MetaLeft) =~= seq!['M', 'e', 't', 'a', 'L', 'e', 'f', 't']);
}

proof fn lemma_chars_metaright()
    ensures
        key_name(Key::MetaRight) == seq!['M', 'e', 't', 'a', 'R', 'i', 'g', 'h', 't'],
{
    reveal_strlit("MetaRight");
    assert(key_name(Key::MetaRight) =~= seq!['M', 'e', 't', 'a', 'R', 'i', 'g', 'h', 't']);
}

proof fn lemma_chars_pagedown()
    ensures
        key_name(Key::PageDown) == seq!['P', 'a', 'g', 'e', 'D', 'o', 'w', 'n'],
{
    reveal_strlit("PageDown");
    assert(key_name(Key::PageDown) =~= seq!['P', 'a', 'g', 'e', 'D', 'o', 'w', 'n']);
}

proof fn lemma_chars_pageup()
    ensures
        key_name(Key::PageUp) == seq!['P', 'a', 'g', 'e', 'U', 'p'],
{
    reveal_strlit("PageUp");
    assert(key_name(Key::PageUp) =~= seq!['P', 'a', 'g', 'e', 'U', 'p']);
}

proof fn lemma_chars_return()
    ensures
        key_name(Key::Return) == seq!['R', 'e', 't', 'u', 'r', 'n'],
{
    reveal_strlit("Return");
    assert(key_name(Key::Return) =~= seq!['R', 'e', 't', 'u', 'r', 'n']);
}

proof fn lemma_chars_rightarrow()
    ensures
        key_name(Key::RightArrow) == seq!['R', 'i', 'g', 'h', 't', 'A', 'r', 'r', 'o', 'w'],
{
    reveal_strlit("RightArrow");
    assert(key_name(Key::RightArrow) =~= seq!['R', 'i', 'g', 'h', 't', 'A', 'r', 'r', 'o', 'w']);
}

proof fn lemma_chars_shiftleft()
    ensures
        key_name(Key::ShiftLeft) == seq!['S', 'h', 'i', 'f', 't', 'L', 'e', 'f', 't'],
{
    reveal_strlit("ShiftLeft");
    assert(key_name(Key::ShiftLeft) =~= seq!['S', 'h', 'i', 'f', 't', 'L', 'e', 'f', 't']);
}

proof fn lemma_chars_shiftright()
    ensures
        key_name(Key::ShiftRight) == seq!['S', 'h', 'i', 'f', 't', 'R', 'i', 'g', 'h', 't'],
{
    reveal_strlit("ShiftRight");
    assert(key_name(Key::ShiftRight) =~= seq!['S', 'h', 'i', 'f', 't', 'R', 'i', 'g', 'h', 't']);
}

proof fn lemma_chars_space()
    ensures
        key_name(Key::Space) == seq!['S', 'p', 'a', 'c', 'e'],
{
    reveal_strlit("Space");
    assert(key_name(Key::Space) =~= seq!['S', 'p', 'a', 'c', 'e']);
}

proof fn lemma_chars_tab()
    ensures
        key_name(Key::Tab) == seq!['T', 'a', 'b'],
{
    reveal_strlit("Tab");
    assert(key_name(Key::Tab) =~= seq!['T', 'a', 'b']);
}

proof fn lemma_chars_uparrow()
    ensures
        key_name(Key::UpArrow) == seq!['U', 'p', 'A', 'r', 'r', 'o', 'w'],
{
    reveal_strlit("UpArrow");
    assert(key_name(Key::UpArrow) =~= seq!['U', 'p', 'A', 'r', 'r', 'o', 'w']);
}

proof fn lemma_chars_printscreen()
    ensures
        key_name(Key::PrintScreen) == seq!['P', 'r', 'i', 'n', 't', 'S', 'c', 'r', 'e', 'e', 'n'],
{
    reveal_strlit("PrintScreen");
    assert(key_name(Key::PrintScreen) =~= seq!['P', 'r', 'i', 'n', 't', 'S', 'c', 'r', 'e', 'e', 'n']);
}

proof fn lemma_chars_scrolllock()
    ensures
        key_name(Key::ScrollLock) == seq!['S', 'c', 'r', 'o', 'l', 'l', 'L', 'o', 'c', 'k'],
{
    reveal_strlit("ScrollLock");
    assert(key_name(Key::ScrollLock) =~= seq!['S', 'c', 'r', 'o', 'l', 'l', 'L', 'o', 'c', 'k']);
}

proof fn lemma_chars_pause()
    ensures
        key_name(Key::Pause) == seq!['P', 'a', 'u', 's', 'e'],
{
    reveal_strlit("Pause");
    assert(key_name(Key::Pause) =~= seq!['P', 'a', 'u', 's', 'e']);
}

proof fn lemma_chars_numlock()
    ensures
        key_name(Key::NumLock) == seq!['N', 'u', 'm', 'L', 'o', 'c', 'k'],
{
    reveal_strlit("NumLock");
    assert(key_name(Key::NumLock) =~= seq!['N', 'u', 'm', 'L', 'o', 'c', 'k']);
}

proof fn lemma_chars_backquote()
    ensures
        key_name(Key::BackQuote) == seq!['B', 'a', 'c', 'k', 'Q', 'u', 'o', 't', 'e'],
{
    reveal_strlit("BackQuote");
    assert(key_name(Key::BackQuote) =~= seq!['B', 'a', 'c', 'k', 'Q', 'u', 'o', 't', 'e']);
}

proof fn lemma_chars_num1()
    ensures
        key_name(Key::Num1) == seq!['1'],
{
    reveal_strlit("1");
    assert(key_name(Key::Num1) =~= seq!['1']);
}

proof fn lemma_chars_num2()
    ensures
        key_name(Key::Num2) == seq!['2'],
{
    reveal_strlit("2");
    assert(key_name(Key::Num2) =~= seq!['2']);
}

proof fn lemma_chars_num3()
    ensures
        key_name(Key::Num3) == seq!['3'],
{
    reveal_strlit("3");
    assert(key_name(Key::Num3) =~= seq!['3']);
}

proof fn lemma_chars_num4()
    ensures
        key_name(Key::Num4) == seq!['4'],
{
    reveal_strlit("4");
    assert(key_name(Key::Num4) =~= seq!['4']);
}

proof fn lemma_chars_num5()
    ensures
        key_name(Key::Num5) == seq!['5'],
{
    reveal_strlit("5");
    assert(key_name(Key::Num5) =~= seq!['5']);
}

proof fn lemma_chars_num6()
    ensures
        key_name(Key::Num6) == seq!['6'],
{
    reveal_strlit("6");
    assert(key_name(Key::Num6) =~= seq!['6']);
}

proof fn lemma_chars_num7()
    ensures
        key_name(Key::Num7) == seq!['7'],
{
    reveal_strlit("7");
    assert(key_name(Key::Num7) =~= seq!['7']);
}

proof fn lemma_chars_num8()
    ensures
        key_name(Key::Num8) == seq!['8'],
{
    reveal_strlit("8");
    assert(key_name(Key::Num8) =~= seq!['8']);
}

proof fn lemma_chars_num9()
    ensures
        key_name(Key::Num9) == seq!['9'],
{
    reveal_strlit("9");
    assert(key_name(Key::Num9) =~= seq!['9']);
}

proof fn lemma_chars_num0()
    ensures
        key_name(Key::Num0) == seq!['0'],
{
    reveal_strlit("0");
    assert(key_name(Key::Num0) =~= seq!['0']);
}

proof fn lemma_chars_minus()
    ensures
        key_name(Key::Minus) == seq!['M', 'i', 'n', 'u', 's'],
{
    reveal_strlit("Minus");
    assert(key_name(Key::Minus) =~= seq!['M', 'i', 'n', 'u', 's']);
}

proof fn lemma_chars_equal()
    ensures
        key_name(Key::Equal) == seq!['E', 'q', 'u', 'a', 'l'],
{
    reveal_strlit("Equal");
    assert(key_name(Key::Equal) =~= seq!['E', 'q', 'u', 'a', 'l']);
}

proof fn lemma_chars_keyq()
    ensures
        key_name(Key::KeyQ) == seq!['K', 'e', 'y', 'Q'],
{
    reveal_strlit("KeyQ");
    assert(key_name(Key::KeyQ) =~= seq!['K', 'e', 'y', 'Q']);
}

proof fn lemma_chars_keyw()
    ensures
        key_name(Key::KeyW) == seq!['K', 'e', 'y', 'W'],
{
    reveal_strlit("KeyW");
    assert(key_name(Key::KeyW) =~= seq!['K', 'e', 'y', 'W']);
}

proof fn lemma_chars_keye()
    ensures
        key_name(Key::KeyE) == seq!['K', 'e', 'y', 'E'],
{
    reveal_strlit("KeyE");
    assert(key_name(Key::KeyE) =~= seq!['K', 'e', 'y', 'E']);
}

proof fn lemma_chars_keyr()
    ensures
        key_name(Key::KeyR) == seq!['K', 'e', 'y', 'R'],
{
    reveal_strlit("KeyR");
    assert(key_name(Key::KeyR) =~= seq!['K', 'e', 'y', 'R']);
}

proof fn lemma_chars_keyt()
    ensures
        key_name(Key::KeyT) == seq!['K', 'e', 'y', 'T'],
{
    reveal_strlit("KeyT");
    assert(key_name(Key::KeyT) =~= seq!['K', 'e', 'y', 'T']);
}

proof fn lemma_chars_keyy()
    ensures
        key_name(Key::KeyY) == seq!['K', 'e', 'y', 'Y'],
{
    reveal_strlit("KeyY");
    assert(key_name(Key::KeyY) =~= seq!['K', 'e', 'y', 'Y']);
}

proof fn lemma_chars_keyu()
    ensures
        key_name(Key::KeyU) == seq!['K', 'e', 'y', 'U'],
{
    reveal_strlit("KeyU");
    assert(key_name(Key::KeyU) =~= seq!['K', 'e', 'y', 'U']);
}

proof fn lemma_chars_keyi()
    ensures
        key_name(Key::KeyI) == seq!['K', 'e', 'y', 'I'],
{
    reveal_strlit("KeyI");
    assert(key_name(Key::KeyI) =~= seq!['K', 'e', 'y', 'I']);
}

proof fn lemma_chars_keyo()
    ensures
        key_name(Key::KeyO) == seq!['K', 'e', 'y', 'O'],
{
    reveal_strlit("KeyO");
    assert(key_name(Key::KeyO) =~= seq!['K', 'e', 'y', 'O']);
}

proof fn lemma_chars_keyp()
    ensures
        key_name(Key::KeyP) == seq!['K', 'e', 'y', 'P'],
{
    reveal_strlit("KeyP");
    assert(key_name(Key::KeyP) =~= seq!['K', 'e', 'y', 'P']);
}

proof fn lemma_chars_leftbracket()
    ensures
        key_name(Key::LeftBracket) == seq!['L', 'e', 'f', 't', 'B', 'r', 'a', 'c', 'k', 'e', 't'],
{
    reveal_strlit("LeftBracket");
    assert(key_name(Key::LeftBracket) =~= seq!['L', 'e', 'f', 't', 'B', 'r', 'a', 'c', 'k', 'e', 't']);
}

proof fn lemma_chars_rightbracket()
    ensures
        key_name(Key::RightBracket) == seq!['R', 'i', 'g', 'h', 't', 'B', 'r', 'a', 'c', 'k', 'e', 't'],
{
    reveal_strlit("RightBracket");
    assert(key_name(Key::RightBracket) =~= seq!['R', 'i', 'g', 'h', 't', 'B', 'r', 'a', 'c', 'k', 'e', 't']);
}

proof fn lemma_chars_keya()
    ensures
        key_name(Key::KeyA) == seq!['K', 'e', 'y', 'A'],
{
    reveal_strlit("KeyA");
    assert(key_name(Key::KeyA) =~= seq!['K', 'e', 'y', 'A']);
}

proof fn lemma_chars_keys()
    ensures
        key_name(Key::KeyS) == seq!['K', 'e', 'y', 'S'],
{
    reveal_strlit("KeyS");
    assert(key_name(Key::KeyS) =~= seq!['K', 'e', 'y', 'S']);
}

proof fn lemma_chars_keyd()
    ensures
        key_name(Key::KeyD) == seq!['K', 'e', 'y', 'D'],
{
    reveal_strlit("KeyD");
    assert(key_name(Key::KeyD) =~= seq!['K', 'e', 'y', 'D']);
}

proof fn lemma_chars_keyf()
    ensures
        key_name(Key::KeyF) == seq!['K', 'e', 'y', 'F'],
{
    reveal_strlit("KeyF");
    assert(key_name(Key::KeyF) =~= seq!['K', 'e', 'y', 'F']);
}

proof fn lemma_chars_keyg()
    ensures
        key_name(Key::KeyG) == seq!['K', 'e', 'y', 'G'],
{
    reveal_strlit("KeyG");
    assert(key_name(Key::KeyG) =~= seq!['K', 'e', 'y', 'G']);
}

proof fn lemma_chars_keyh()
    ensures
        key_name(Key::KeyH) == seq!['K', 'e', 'y', 'H'],
{
    reveal_strlit("KeyH");
    assert(key_name(Key::KeyH) =~= seq!['K', 'e', 'y', 'H']);
}

proof fn lemma_chars_keyj()
    ensures
        key_name(Key::KeyJ) == seq!['K', 'e', 'y', 'J'],
{
    reveal_strlit("KeyJ");
    assert(key_name(Key::KeyJ) =~= seq!['K', 'e', 'y', 'J']);
}

proof fn lemma_chars_keyk()
    ensures
        key_name(Key::KeyK) == seq!['K', 'e', 'y', 'K'],
{
    reveal_strlit("KeyK");
    assert(key_name(Key::KeyK) =~= seq!['K', 'e', 'y', 'K']);
}

proof fn lemma_chars_keyl()
    ensures
        key_name(Key::KeyL) == seq!['K', 'e', 'y', 'L'],
{
    reveal_strlit("KeyL");
    assert(key_name(Key::KeyL) =~= seq!['K', 'e', 'y', 'L']);
}

proof fn lemma_chars_semicolon()
    ensures
        key_name(Key::SemiColon) == seq!['S', 'e', 'm', 'i', 'C', 'o', 'l', 'o', 'n'],
{
    reveal_strlit("SemiColon");
    assert(key_name(Key::SemiColon) =~= seq!['S', 'e', 'm', 'i', 'C', 'o', 'l', 'o', 'n']);
}

proof fn lemma_chars_quote()
    ensures
        key_name(Key::Quote) == seq!['Q', 'u', 'o', 't', 'e'],
{
    reveal_strlit("Quote");
    assert(key_name(Key::Quote) =~= seq!['Q', 'u', 'o', 't', 'e']);
}

proof fn lemma_chars_backslash()
    ensures
        key_name(Key::BackSlash) == seq!['B', 'a', 'c', 'k', 'S', 'l', 'a', 's', 'h'],
{
    reveal_strlit("BackSlash");
    assert(key_name(Key::BackSlash) =~= seq!['B', 'a', 'c', 'k', 'S', 'l', 'a', 's', 'h']);
}

proof fn lemma_chars_intlbackslash()
    ensures
        key_name(Key::IntlBackslash) == seq!['I', 'n', 't', 'l', 'B', 'a', 'c', 'k', 's', 'l', 'a', 's', 'h'],
{
    reveal_strlit("IntlBackslash");
    assert(key_name(Key::IntlBackslash) =~= seq!['I', 'n', 't', 'l', 'B', 'a', 'c', 'k', 's', 'l', 'a', 's', 'h']);
}

proof fn lemma_chars_keyz()
    ensures
        key_name(Key::KeyZ) == seq!['K', 'e', 'y', 'Z'],
{
    reveal_strlit("KeyZ");
    assert(key_name(Key::KeyZ) =~= seq!['K', 'e', 'y', 'Z']);
}

proof fn lemma_chars_keyx()
    ensures
        key_name(Key::KeyX) == seq!['K', 'e', 'y', 'X'],
{
    reveal_strlit("KeyX");
    assert(key_name(Key::KeyX) =~= seq!['K', 'e', 'y', 'X']);
}

proof fn lemma_chars_keyc()
    ensures
        key_name(Key::KeyC) == seq!['K', 'e', 'y', 'C'],
{
    reveal_strlit("KeyC");
    assert(key_name(Key::KeyC) =~= seq!['K', 'e', 'y', 'C']);
}

proof fn lemma_chars_keyv()
    ensures
        key_name(Key::KeyV) == seq!['K', 'e', 'y', 'V'],
{
    reveal_strlit("KeyV");
    assert(key_name(Key::KeyV) =~= seq!['K', 'e', 'y', 'V']);
}

proof fn lemma_chars_keyb()
    ensures
        key_name(Key::KeyB) == seq!['K', 'e', 'y', 'B'],
{
    reveal_strlit("KeyB");
    assert(key_name(Key::KeyB) =~= seq!['K', 'e', 'y', 'B']);
}

proof fn lemma_chars_keyn()
    ensures
        key_name(Key::KeyN) == seq!['K', 'e', 'y', 'N'],
{
    reveal_strlit("KeyN");
    assert(key_name(Key::KeyN) =~= seq!['K', 'e', 'y', 'N']);
}

proof fn lemma_chars_keym()
    ensures
        key_name(Key::KeyM) == seq!['K', 'e', 'y', 'M'],
{
    reveal_strlit("KeyM");
    assert(key_name(Key::KeyM) =~= seq!['K', 'e', 'y', 'M']);
}

proof fn lemma_chars_comma()
    ensures
        key_name(Key::Comma) == seq!['C', 'o', 'm', 'm', 'a'],
{
    reveal_strlit("Comma");
    assert(key_name(Key::Comma) =~= seq!['C', 'o', 'm', 'm', 'a']);
}

proof fn lemma_chars_dot()
    ensures
        key_name(Key::Dot) == seq!['D', 'o', 't'],
{
    reveal_strlit("Dot");
    assert(key_name(Key::Dot) =~= seq!['D', 'o', 't']);
}

proof fn lemma_chars_slash()
    ensures
        key_name(Key::Slash) == seq!['S', 'l', 'a', 's', 'h'],
{
    reveal_strlit("Slash");
    assert(key_name(Key::Slash) =~= seq!['S', 'l', 'a', 's', 'h']);
}

proof fn lemma_chars_insert()
    ensures
        key_name(Key::Insert) == seq!['I', 'n', 's', 'e', 'r', 't'],
{
    reveal_strlit("Insert");
    assert(key_name(Key::Insert) =~= seq!['I', 'n', 's', 'e', 'r', 't']);
}

proof fn lemma_chars_kpreturn()
    ensures
        key_name(Key::KpReturn) == seq!['K', 'p', 'R', 'e', 't', 'u', 'r', 'n'],
{
    reveal_strlit("KpReturn");
    assert(key_name(Key::KpReturn) =~= seq!['K', 'p', 'R', 'e', 't', 'u', 'r', 'n']);
}

proof fn lemma_chars_kpminus()
    ensures
        key_name(Key::KpMinus) == seq!['K', 'p', 'M', 'i', 'n', 'u', 's'],
{
    reveal_strlit("KpMinus");
    assert(key_name(Key::KpMinus) =~= seq!['K', 'p', 'M', 'i', 'n', 'u', 's']);
}

proof fn lemma_chars_kpplus()
    ensures
        key_name(Key::KpPlus) == seq!['K', 'p', 'P', 'l', 'u', 's'],
{
    reveal_strlit("KpPlus");
    assert(key_name(Key::KpPlus) =~= seq!['K', 'p', 'P', 'l', 'u', 's']);
}

proof fn lemma_chars_kpmultiply()
    ensures
        key_name(Key::KpMultiply) == seq!['K', 'p', 'M', 'u', 'l', 't', 'i', 'p', 'l', 'y'],
{
    reveal_strlit("KpMultiply");
    assert(key_name(Key::KpMultiply) =~= seq!['K', 'p', 'M', 'u', 'l', 't', 'i', 'p', 'l', 'y']);
}

proof fn lemma_chars_kpdivide()
    ensures
        key_name(Key::KpDivide) == seq!['K', 'p', 'D', 'i', 'v', 'i', 'd', 'e'],
{
    reveal_strlit("KpDivide");
    assert(key_name(Key::KpDivide) =~= seq!['K', 'p', 'D', 'i', 'v', 'i', 'd', 'e']);
}

proof fn lemma_chars_kp0()
    ensures
        key_name(Key::Kp0) == seq!['K', 'p', '0'],
{
    reveal_strlit("Kp0");
    assert(key_name(Key::Kp0) =~= seq!['K', 'p', '0']);
}

proof fn lemma_chars_kp1()
    ensures
        key_name(Key::Kp1) == seq!['K', 'p', '1'],
{
    reveal_strlit("Kp1");
    assert(key_name(Key::Kp1) =~= seq!['K', 'p', '1']);
}

proof fn lemma_chars_kp2()
    ensures
        key_name(Key::Kp2) == seq!['K', 'p', '2'],
{
    reveal_strlit("Kp2");
    assert(key_name(Key::Kp2) =~= seq!['K', 'p', '2']);
}

proof fn lemma_chars_kp3()
    ensures
        key_name(Key::Kp3) == seq!['K', 'p', '3'],
{
    reveal_strlit("Kp3");
    assert(key_name(Key::Kp3) =~= seq!['K', 'p', '3']);
}

proof fn lemma_chars_kp4()
    ensures
        key_name(Key::Kp4) == seq!['K', 'p', '4'],
{
    reveal_strlit("Kp4");
    assert(key_name(Key::Kp4) =~= seq!['K', 'p', '4']);
}

proof fn lemma_chars_kp5()
    ensures
        key_name(Key::Kp5) == seq!['K', 'p', '5'],
{
    reveal_strlit("Kp5");
    assert(key_name(Key::Kp5) =~= seq!['K', 'p', '5']);
}

proof fn lemma_chars_kp6()
    ensures
        key_name(Key::Kp6) == seq!['K', 'p', '6'],
{
    reveal_strlit("Kp6");
    assert(key_name(Key::Kp6) =~= seq!['K', 'p', '6']);
}

proof fn lemma_chars_kp7()
    ensures
        key_name(Key::Kp7) == seq!['K', 'p', '7'],
{
    reveal_strlit("Kp7");
    assert(key_name(Key::Kp7) =~= seq!['K', 'p', '7']);
}

proof fn lemma_chars_kp8()
    ensures
        key_name(Key::Kp8) == seq!['K', 'p', '8'],
{
    reveal_strlit("Kp8");
    assert(key_name(Key::Kp8) =~= seq!['K', 'p', '8']);
}

proof fn lemma_chars_kp9()
    ensures
        key_name(Key::Kp9) == seq!['K', 'p', '9'],
{
    reveal_strlit("Kp9");
    assert(key_name(Key::Kp9) =~= seq!['K', 'p', '9']);
}

proof fn lemma_chars_kpdelete()
    ensures
        key_name(Key::KpDelete) == seq!['K', 'p', 'D', 'e', 'l', 'e', 't', 'e'],
{
    reveal_strlit("KpDelete");
    assert(key_name(Key::KpDelete) =~= seq!['K', 'p', 'D', 'e', 'l', 'e', 't', 'e']);
}

proof fn lemma_chars_function()
    ensures
        key_name(Key::Function) == seq!['F', 'u', 'n', 'c', 't', 'i', 'o', 'n'],
{
    reveal_strlit("Function");
    assert(key_name(Key::Function) =~= seq!['F', 'u', 'n', 'c', 't', 'i', 'o', 'n']);
}

/// The names of the keys from `Alt` to `F5`, character by
/// character.
pub proof fn key_name_table_1()
    ensures
        key_name(Key::Alt) === seq!['A', 'l', 't'],
        key_name(Key::AltGr) === seq!['A', 'l', 't', 'G', 'r'],
        key_name(Key::Backspace) === seq!['B', 'a', 'c', 'k', 's', 'p', 'a', 'c', 'e'],
        key_name(Key::CapsLock) === seq!['C', 'a', 'p', 's', 'L', 'o', 'c', 'k'],
        key_name(Key::ControlLeft) === seq!['C', 'o', 'n', 't', 'r', 'o', 'l', 'L', 'e', 'f', 't'],
        key_name(Key::ControlRight) === seq!['C', 'o', 'n', 't', 'r', 'o', 'l', 'R', 'i', 'g', 'h', 't'],
        key_name(Key::Delete) === seq!['D', 'e', 'l', 'e', 't', 'e'],
        key_name(Key::DownArrow) === seq!['D', 'o', 'w', 'n', 'A', 'r', 'r', 'o', 'w'],
        key_name(Key::End) === seq!['E', 'n', 'd'],
        key_name(Key::Escape) === seq!['E', 's', 'c', 'a', 'p', 'e'],
        key_name(Key::F1) === seq!['F', '1'],
        key_name(Key::F10) === seq!['F', '1', '0'],
        key_name(Key::F11) === seq!['F', '1', '1'],
        key_name(Key::F12) === seq!['F', '1', '2'],
        key_name(Key::F2) === seq!['F', '2'],
        key_name(Key::F3) === seq!['F', '3'],
        key_name(Key::F4) === seq!['F', '4'],
        key_name(Key::F5) === seq!['F', '5'],
{
    lemma_chars_alt();
    lemma_chars_altgr();
    lemma_chars_backspace();
    lemma_chars_capslock();
    lemma_chars_controlleft();
    lemma_chars_controlright();
    lemma_chars_delete();
    lemma_chars_downarrow();
    lemma_chars_end();
    lemma_chars_escape();
    lemma_chars_f1();
    lemma_chars_f10();
    lemma_chars_f11();
    lemma_chars_f12();
    lemma_chars_f2();
    lemma_chars_f3();
    lemma_chars_f4();
    lemma_chars_f5();
}

/// The names of the keys from `F6` to `PrintScreen`, character by
/// character.
pub proof fn key_name_table_2()
    ensures
        key_name(Key::F6) === seq!['F', '6'],
        key_name(Key::F7) === seq!['F', '7'],
        key_name(Key::F8) === seq!['F', '8'],
        key_name(Key::F9) === seq!['F', '9'],
        key_name(Key::Home) === seq!['H', 'o', 'm', 'e'],
        key_name(Key::LeftArrow) === seq!['L', 'e', 'f', 't', 'A', 'r', 'r', 'o', 'w'],
        key_name(Key::MetaLeft) === seq!['M', 'e', 't', 'a', 'L', 'e', 'f', 't'],
        key_name(Key::MetaRight) === seq!['M', 'e', 't', 'a', 'R', 'i', 'g', 'h', 't'],
        key_name(Key::PageDown) === seq!['P', 'a', 'g', 'e', 'D', 'o', 'w', 'n'],
        key_name(Key::PageUp) === seq!['P', 'a', 'g', 'e', 'U', 'p'],
        key_name(Key::Return) === seq!['R', 'e', 't', 'u', 'r', 'n'],
        key_name(Key::RightArrow) === seq!['R', 'i', 'g', 'h', 't', 'A', 'r', 'r', 'o', 'w'],
        key_name(Key::ShiftLeft) === seq!['S', 'h', 'i', 'f', 't', 'L', 'e', 'f', 't'],
        key_name(Key::ShiftRight) === seq!['S', 'h', 'i', 'f', 't', 'R', 'i', 'g', 'h', 't'],
        key_name(Key::Space) === seq!['S', 'p', 'a', 'c', 'e'],
        key_name(Key::Tab) === seq!['T', 'a', 'b'],
        key_name(Key::UpArrow) === seq!['U', 'p', 'A', 'r', 'r', 'o', 'w'],
        key_name(Key::PrintScreen) === seq!['P', 'r', 'i', 'n', 't', 'S', 'c', 'r', 'e', 'e', 'n'],
{
    lemma_chars_f6();
    lemma_chars_f7();
    lemma_chars_f8();
    lemma_chars_f9();
    lemma_chars_home();
    lemma_chars_leftarrow();
    lemma_chars_metaleft();
    lemma_chars_metaright();
    lemma_chars_pagedown();
    lemma_chars_pageup();
    lemma_chars_return();
    lemma_chars_rightarrow();
    lemma_chars_shiftleft();
    lemma_chars_shiftright();
    lemma_chars_space();
    lemma_chars_tab();
    lemma_chars_uparrow();
    lemma_chars_printscreen();
}

/// The names of the keys from `ScrollLock` to `KeyW`, character by
/// character.
pub proof fn key_name_table_3()
    ensures
        key_name(Key::ScrollLock) === seq!['S', 'c', 'r', 'o', 'l', 'l', 'L', 'o', 'c', 'k'],
        key_name(Key::Pause) === seq!['P', 'a', 'u', 's', 'e'],
        key_name(Key::NumLock) === seq!['N', 'u', 'm', 'L', 'o', 'c', 'k'],
        key_name(Key::BackQuote) === seq!['B', 'a', 'c', 'k', 'Q', 'u', 'o', 't', 'e'],
        key_name(Key::Num1) === seq!['1'],
        key_name(Key::Num2) === seq!['2'],
        key_name(Key::Num3) === seq!['3'],
        key_name(Key::Num4) === seq!['4'],
        key_name(Key::Num5) === seq!['5'],
        key_name(Key::Num6) === seq!['6'],
        key_name(Key::Num7) === seq!['7'],
        key_name(Key::Num8) === seq!['8'],
        key_name(Key::Num9) === seq!['9'],
        key_name(Key::Num0) === seq!['0'],
        key_name(Key::Minus) === seq!['M', 'i', 'n', 'u', 's'],
        key_name(Key::Equal) === seq!['E', 'q', 'u', 'a', 'l'],
        key_name(Key::KeyQ) === seq!['K', 'e', 'y', 'Q'],
        key_name(Key::KeyW) === seq!['K', 'e', 'y', 'W'],
{
    lemma_chars_scrolllock();
    lemma_chars_pause();
    lemma_chars_numlock();
    lemma_chars_backquote();
    lemma_chars_num1();
    lemma_chars_num2();
    lemma_chars_num3();
    lemma_chars_num4();
    lemma_chars_num5();
    lemma_chars_num6();
    lemma_chars_num7();
    lemma_chars_num8();
    lemma_chars_num9();
    lemma_chars_num0();
    lemma_chars_minus();
    lemma_chars_equal();
    lemma_chars_keyq();
    lemma_chars_keyw();
}

/// The names of the keys from `KeyE` to `KeyK`, character by
/// character.
pub proof fn key_name_table_4()
    ensures
        key_name(Key::KeyE) === seq!['K', 'e', 'y', 'E'],
        key_name(Key::KeyR) === seq!['K', 'e', 'y', 'R'],
        key_name(Key::KeyT) === seq!['K', 'e', 'y', 'T'],
        key_name(Key::KeyY) === seq!['K', 'e', 'y', 'Y'],
        key_name(Key::KeyU) === seq!['K', 'e', 'y', 'U'],
        key_name(Key::KeyI) === seq!['K', 'e', 'y', 'I'],
        key_name(Key::KeyO) === seq!['K', 'e', 'y', 'O'],
        key_name(Key::KeyP) === seq!['K', 'e', 'y', 'P'],
        key_name(Key::LeftBracket) === seq!['L', 'e', 'f', 't', 'B', 'r', 'a', 'c', 'k', 'e', 't'],
        key_name(Key::RightBracket) === seq!['R', 'i', 'g', 'h', 't', 'B', 'r', 'a', 'c', 'k', 'e', 't'],
        key_name(Key::KeyA) === seq!['K', 'e', 'y', 'A'],
        key_name(Key::KeyS) === seq!['K', 'e', 'y', 'S'],
        key_name(Key::KeyD) === seq!['K', 'e', 'y', 'D'],
        key_name(Key::KeyF) === seq!['K', 'e', 'y', 'F'],
        key_name(Key::KeyG) === seq!['K', 'e', 'y', 'G'],
        key_name(Key::KeyH) === seq!['K', 'e', 'y', 'H'],
        key_name(Key::KeyJ) === seq!['K', 'e', 'y', 'J'],
        key_name(Key::KeyK) === seq!['K', 'e', 'y', 'K'],
{
    lemma_chars_keye();
    lemma_chars_keyr();
    lemma_chars_keyt();
    lemma_chars_keyy();
    lemma_chars_keyu();
    lemma_chars_keyi();
    lemma_chars_keyo();
    lemma_chars_keyp();
    lemma_chars_leftbracket();
    lemma_chars_rightbracket();
    lemma_chars_keya();
    lemma_chars_keys();
    lemma_chars_keyd();
    lemma_chars_keyf();
    lemma_chars_keyg();
    lemma_chars_keyh();
    lemma_chars_keyj();
    lemma_chars_keyk();
}

/// The names of the keys from `KeyL` to `KpMinus`, character by
/// character.
pub proof fn key_name_table_5()
    ensures
        key_name(Key::KeyL) === seq!['K', 'e', 'y', 'L'],
        key_name(Key::SemiColon) === seq!['S', 'e', 'm', 'i', 'C', 'o', 'l', 'o', 'n'],
        key_name(Key::Quote) === seq!['Q', 'u', 'o', 't', 'e'],
        key_name(Key::BackSlash) === seq!['B', 'a', 'c', 'k', 'S', 'l', 'a', 's', 'h'],
        key_name(Key::IntlBackslash) === seq!['I', 'n', 't', 'l', 'B', 'a', 'c', 'k', 's', 'l', 'a', 's', 'h'],
        key_name(Key::KeyZ) === seq!['K', 'e', 'y', 'Z'],
        key_name(Key::KeyX) === seq!['K', 'e', 'y', 'X'],
        key_name(Key::KeyC) === seq!['K', 'e', 'y', 'C'],
        key_name(Key::KeyV) === seq!['K', 'e', 'y', 'V'],
        key_name(Key::KeyB) === seq!['K', 'e', 'y', 'B'],
        key_name(Key::KeyN) === seq!['K', 'e', 'y', 'N'],
        key_name(Key::KeyM) === seq!['K', 'e', 'y', 'M'],
        key_name(Key::Comma) === seq!['C', 'o', 'm', 'm', 'a'],
        key_name(Key::Dot) === seq!['D', 'o', 't'],
        key_name(Key::Slash) === seq!['S', 'l', 'a', 's', 'h'],
        key_name(Key::Insert) === seq!['I', 'n', 's', 'e', 'r', 't'],
        key_name(Key::KpReturn) === seq!['K', 'p', 'R', 'e', 't', 'u', 'r', 'n'],
        key_name(Key::KpMinus) === seq!['K', 'p', 'M', 'i', 'n', 'u', 's'],
{
    lemma_chars_keyl();
    lemma_chars_semicolon();
    lemma_chars_quote();
    lemma_chars_backslash();
    lemma_chars_intlbackslash();
    lemma_chars_keyz();
    lemma_chars_keyx();
    lemma_chars_keyc();
    lemma_chars_keyv();
    lemma_chars_keyb();
    lemma_chars_keyn();
    lemma_chars_keym();
    lemma_chars_comma();
    lemma_chars_dot();
    lemma_chars_slash();
    lemma_chars_insert();
    lemma_chars_kpreturn();
    lemma_chars_kpminus();
}

/// The names of the keys from `KpPlus` to `Function`, character by
/// character.
pub proof fn key_name_table_6()
    ensures
        key_name(Key::KpPlus) === seq!['K', 'p', 'P', 'l', 'u', 's'],
        key_name(Key::KpMultiply) === seq!['K', 'p', 'M', 'u', 'l', 't', 'i', 'p', 'l', 'y'],
        key_name(Key::KpDivide) === seq!['K', 'p', 'D', 'i', 'v', 'i', 'd', 'e'],
        key_name(Key::Kp0) === seq!['K', 'p', '0'],
        key_name(Key::Kp1) === seq!['K', 'p', '1'],
        key_name(Key::Kp2) === seq!['K', 'p', '2'],
        key_name(Key::Kp3) === seq!['K', 'p', '3'],
        key_name(Key::Kp4) === seq!['K', 'p', '4'],
        key_name(Key::Kp5) === seq!['K', 'p', '5'],
        key_name(Key::Kp6) === seq!['K', 'p', '6'],
        key_name(Key::Kp7) === seq!['K', 'p', '7'],
        key_name(Key::Kp8) === seq!['K', 'p', '8'],
        key_name(Key::Kp9) === seq!['K', 'p', '9'],
        key_name(Key::KpDelete) === seq!['K', 'p', 'D', 'e', 'l', 'e', 't', 'e'],
        key_name(Key::Function) === seq!['F', 'u', 'n', 'c', 't', 'i', 'o', 'n'],
{
    lemma_chars_kpplus();
    lemma_chars_kpmultiply();
    lemma_chars_kpdivide();
    lemma_chars_kp0();
    lemma_chars_kp1();
    lemma_chars_kp2();
    lemma_chars_kp3();
    lemma_chars_kp4();
    lemma_chars_kp5();
    lemma_chars_kp6();
    lemma_chars_kp7();
    lemma_chars_kp8();
    lemma_chars_kp9();
    lemma_chars_kpdelete();
    lemma_chars_function();
}

/// An unknown key is named "Unknown(", its code in decimal, and ")".
pub proof fn unknown_key_name(code: u32)
    ensures
        key_name(Key::Unknown(code)) === seq!['U', 'n', 'k', 'n', 'o', 'w', 'n', '('] + decimal(code as nat) + seq![')'],
{
    reveal_strlit("Unknown(");
    reveal_strlit(")");
    assert("Unknown("@ =~= seq!['U', 'n', 'k', 'n', 'o', 'w', 'n', '(']);
    assert(")"@ =~= seq![')']);
}

/// Reading the name of a key with a fixed name gives the key back.
proof fn lemma_read_back(k: Key)
    requires
        !(k is Unknown),
    ensures
        key_of_name(key_name(k)) == Some(k),
{
    match k {
        Key::Alt => lemma_read_back_alt(),
        Key::AltGr => lemma_read_back_altgr(),
        Key::Backspace => lemma_read_back_backspace(),
        Key::CapsLock => lemma_read_back_capslock(),
        Key::ControlLeft => lemma_read_back_controlleft(),
        Key::ControlRight => lemma_read_back_controlright(),
        Key::Delete => lemma_read_back_delete(),
        Key::DownArrow => lemma_read_back_downarrow(),
        Key::End => lemma_read_back_end(),
        Key::Escape => lemma_read_back_escape(),
        Key::F1 => lemma_read_back_f1(),
        Key::F10 => lemma_read_back_f10(),
        Key::F11 => lemma_read_back_f11(),
        Key::F12 => lemma_read_back_f12(),
        Key::F2 => lemma_read_back_f2(),
        Key::F3 => lemma_read_back_f3(),
        Key::F4 => lemma_read_back_f4(),
        Key::F5 => lemma_read_back_f5(),
        Key::F6 => lemma_read_back_f6(),
        Key::F7 => lemma_read_back_f7(),
        Key::F8 => lemma_read_back_f8(),
        Key::F9 => lemma_read_back_f9(),
        Key::Home => lemma_read_back_home(),
        Key::LeftArrow => lemma_read_back_leftarrow(),
        Key::MetaLeft => lemma_read_back_metaleft(),
        Key::MetaRight => lemma_read_back_metaright(),
        Key::PageDown => lemma_read_back_pagedown(),
        Key::PageUp => lemma_read_back_pageup(),
        Key::Return => lemma_read_back_return(),
        Key::RightArrow => lemma_read_back_rightarrow(),
        Key::ShiftLeft => lemma_read_back_shiftleft(),
        Key::ShiftRight => lemma_read_back_shiftright(),
        Key::Space => lemma_read_back_space(),
        Key::Tab => lemma_read_back_tab(),
        Key::UpArrow => lemma_read_back_uparrow(),
        Key::PrintScreen => lemma_read_back_printscreen(),
        Key::ScrollLock => lemma_read_back_scrolllock(),
        Key::Pause => lemma_read_back_pause(),
        Key::NumLock => lemma_read_back_numlock(),
        Key::BackQuote => lemma_read_back_backquote(),
        Key::Num1 => lemma_read_back_num1(),
        Key::Num2 => lemma_read_back_num2(),
        Key::Num3 => lemma_read_back_num3(),
        Key::Num4 => lemma_read_back_num4(),
        Key::Num5 => lemma_read_back_num5(),
        Key::Num6 => lemma_read_back_num6(),
        Key::Num7 => lemma_read_back_num7(),
        Key::Num8 => lemma_read_back_num8(),
        Key::Num9 => lemma_read_back_num9(),
        Key::Num0 => lemma_read_back_num0(),
        Key::Minus => lemma_read_back_minus(),
        Key::Equal => lemma_read_back_equal(),
        Key::KeyQ => lemma_read_back_keyq(),
        Key::KeyW => lemma_read_back_keyw(),
        Key::KeyE => lemma_read_back_keye(),
        Key::KeyR => lemma_read_back_keyr(),
        Key::KeyT => lemma_read_back_keyt(),
        Key::KeyY => lemma_read_back_keyy(),
        Key::KeyU => lemma_read_back_keyu(),
        Key::KeyI => lemma_read_back_keyi(),
        Key::KeyO => lemma_read_back_keyo(),
        Key::KeyP => lemma_read_back_keyp(),
        Key::LeftBracket => lemma_read_back_leftbracket(),
        Key::RightBracket => lemma_read_back_rightbracket(),
        Key::KeyA => lemma_read_back_keya(),
        Key::KeyS => lemma_read_back_keys(),
        Key::KeyD => lemma_read_back_keyd(),
        Key::KeyF => lemma_read_back_keyf(),
        Key::KeyG => lemma_read_back_keyg(),
        Key::KeyH => lemma_read_back_keyh(),
        Key::KeyJ => lemma_read_back_keyj(),
        Key::KeyK => lemma_read_back_keyk(),
        Key::KeyL => lemma_read_back_keyl(),
        Key::SemiColon => lemma_read_back_semicolon(),
        Key::Quote => lemma_read_back_quote(),
        Key::BackSlash => lemma_read_back_backslash(),
        Key::IntlBackslash => lemma_read_back_intlbackslash(),
        Key::KeyZ => lemma_read_back_keyz(),
        Key::KeyX => lemma_read_back_keyx(),
        Key::KeyC => lemma_read_back_keyc(),
        Key::KeyV => lemma_read_back_keyv(),
        Key::KeyB => lemma_read_back_keyb(),
        Key::KeyN => lemma_read_back_keyn(),
        Key::KeyM => lemma_read_back_keym(),
        Key::Comma => lemma_read_back_comma(),
        Key::Dot => lemma_read_back_dot(),
        Key::Slash => lemma_read_back_slash(),
        Key::Insert => lemma_read_back_insert(),
        Key::KpReturn => lemma_read_back_kpreturn(),
        Key::KpMinus => lemma_read_back_kpminus(),
        Key::KpPlus => lemma_read_back_kpplus(),
        Key::KpMultiply => lemma_read_back_kpmultiply(),
        Key::KpDivide => lemma_read_back_kpdivide(),
        Key::Kp0 => lemma_read_back_kp0(),
        Key::Kp1 => lemma_read_back_kp1(),
        Key::Kp2 => lemma_read_back_kp2(),
        Key::Kp3 => lemma_read_back_kp3(),
        Key::Kp4 => lemma_read_back_kp4(),
        Key::Kp5 => lemma_read_back_kp5(),
        Key::Kp6 => lemma_read_back_kp6(),
        Key::Kp7 => lemma_read_back_kp7(),
        Key::Kp8 => lemma_read_back_kp8(),
        Key::Kp9 => lemma_read_back_kp9(),
        Key::KpDelete => lemma_read_back_kpdelete(),
        Key::Function => lemma_read_back_function(),
        Key::Unknown(_) => {},
    }
}

/// Distinct keys have distinct names: the name of a key determines the key.
pub proof fn key_names_distinct(a: Key, b: Key)
    requires
        key_name(a) == key_name(b),
    ensures
        a == b,
{
    match (a, b) {
        (Key::Unknown(c), Key::Unknown(d)) => lemma_unknown_names_distinct(c, d),
        (Key::Unknown(c), _) => {
            lemma_unknown_name(c);
            lemma_read_back(b);
        },
        (_, Key::Unknown(d)) => {
            lemma_unknown_name(d);
            lemma_read_back(a);
        },
        (_, _) => {
            lemma_read_back(a);
            lemma_read_back(b);
        },
    }
}

} // verus!
