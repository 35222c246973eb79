//! Input methods: the closed action alphabet and the Telex and VNI key
//! classifiers.

use vstd::prelude::*;
use crate::chars::{ToneMark, VowelMod};
use crate::keycodes::{spec_ascii_lower, ascii_lower};
use crate::validation::spec_lower_seq;
use crate::strings::chars_of_str;

verus! {

/// What a key asks the engine to do.
#[derive(Debug, Clone, Copy, PartialEq, Eq, Structural)]
pub enum KeyAction {
    /// Treat the key as an ordinary character.
    Ordinary,
    /// Place a tone mark.
    Tone(ToneMark),
    /// Place a vowel modifier.
    Modifier(VowelMod),
    /// Toggle `d` and `đ`.
    Stroke,
    /// Strip every diacritic from the buffer.
    RemoveDiacritics,
    /// Revert the last transformation.
    Undo,
    /// Replace the doubled consonant with a two-letter cluster.
    QuickTelex(char, char),
    /// Insert a specific Vietnamese character directly.
    InsertChar(char),
}

/// The Telex classification of a key given the previous buffer character:
/// `s f r x j` are tones, doubled `a`/`e`/`o` the circumflex, `w` the horn
/// or breve, doubled `d` the stroke, `z` strips diacritics, doubled
/// `c g k n p t q` expand to consonant clusters, and the brackets insert
/// `ư` and `ơ`.
pub open spec fn spec_telex_classify(key: char, prev: Option<char>) -> KeyAction {
    let kl = spec_ascii_lower(key);
    if kl == 's' {
        KeyAction::Tone(ToneMark::Acute)
    } else if kl == 'f' {
        KeyAction::Tone(ToneMark::Grave)
    } else if kl == 'r' {
        KeyAction::Tone(ToneMark::Hook)
    } else if kl == 'x' {
        KeyAction::Tone(ToneMark::Tilde)
    } else if kl == 'j' {
        KeyAction::Tone(ToneMark::Dot)
    } else if kl == 'a' || kl == 'e' || kl == 'o' {
        match prev {
            Some(p) => if spec_ascii_lower(p) == kl {
                KeyAction::Modifier(VowelMod::Circumflex)
            } else {
                KeyAction::Ordinary
            },
            None => KeyAction::Ordinary,
        }
    } else if kl == 'w' {
        match prev {
            Some(p) => {
                let pl = spec_ascii_lower(p);
                if pl == 'a' {
                    KeyAction::Modifier(VowelMod::Breve)
                } else if pl == 'o' || pl == 'u' {
                    KeyAction::Modifier(VowelMod::Horn)
                } else {
                    KeyAction::Ordinary
                }
            },
            None => KeyAction::Ordinary,
        }
    } else if kl == 'd' {
        match prev {
            Some(p) => if spec_ascii_lower(p) == 'd' {
                KeyAction::Stroke
            } else {
                KeyAction::Ordinary
            },
            None => KeyAction::Ordinary,
        }
    } else if kl == 'z' {
        KeyAction::RemoveDiacritics
    } else if kl == 'c' || kl == 'g' || kl == 'k' || kl == 'n' || kl == 'p' || kl == 't' || kl
        == 'q' {
        match prev {
            Some(p) => if spec_ascii_lower(p) == kl {
                if kl == 'c' {
                    KeyAction::QuickTelex('c', 'h')
                } else if kl == 'g' {
                    KeyAction::QuickTelex('g', 'h')
                } else if kl == 'k' {
                    KeyAction::QuickTelex('k', 'h')
                } else if kl == 'n' {
                    KeyAction::QuickTelex('n', 'h')
                } else if kl == 'p' {
                    KeyAction::QuickTelex('p', 'h')
                } else if kl == 't' {
                    KeyAction::QuickTelex('t', 'h')
                } else {
                    KeyAction::QuickTelex('q', 'u')
                }
            } else {
                KeyAction::Ordinary
            },
            None => KeyAction::Ordinary,
        }
    } else if key == '[' {
        KeyAction::InsertChar('ư')
    } else if key == ']' {
        KeyAction::InsertChar('ơ')
    } else {
        KeyAction::Ordinary
    }
}

/// The VNI classification: digits `1`-`5` are tones, `6` the circumflex,
/// `7` the horn, `8` the breve, `9` the stroke after a `d`, `0` strips
/// diacritics.
pub open spec fn spec_vni_classify(key: char, prev: Option<char>) -> KeyAction {
    if key == '1' {
        KeyAction::Tone(ToneMark::Acute)
    } else if key == '2' {
        KeyAction::Tone(ToneMark::Grave)
    } else if key == '3' {
        KeyAction::Tone(ToneMark::Hook)
    } else if key == '4' {
        KeyAction::Tone(ToneMark::Tilde)
    } else if key == '5' {
        KeyAction::Tone(ToneMark::Dot)
    } else if key == '6' {
        KeyAction::Modifier(VowelMod::Circumflex)
    } else if key == '7' {
        KeyAction::Modifier(VowelMod::Horn)
    } else if key == '8' {
        KeyAction::Modifier(VowelMod::Breve)
    } else if key == '9' {
        match prev {
            Some(p) => if spec_ascii_lower(p) == 'd' {
                KeyAction::Stroke
            } else {
                KeyAction::Ordinary
            },
            None => KeyAction::Ordinary,
        }
    } else if key == '0' {
        KeyAction::RemoveDiacritics
    } else {
        KeyAction::Ordinary
    }
}

fn telex_classify(key: char, prev_char: Option<char>) -> (r: KeyAction)
    ensures
        r == spec_telex_classify(key, prev_char),
{
    let kl = ascii_lower(key);
    if kl == 's' {
        KeyAction::Tone(ToneMark::Acute)
    } else if kl == 'f' {
        KeyAction::Tone(ToneMark::Grave)
    } else if kl == 'r' {
        KeyAction::Tone(ToneMark::Hook)
    } else if kl == 'x' {
        KeyAction::Tone(ToneMark::Tilde)
    } else if kl == 'j' {
        KeyAction::Tone(ToneMark::Dot)
    } else if kl == 'a' || kl == 'e' || kl == 'o' {
        match prev_char {
            Some(p) => if ascii_lower(p) == kl {
                KeyAction::Modifier(VowelMod::Circumflex)
            } else {
                KeyAction::Ordinary
            },
            None => KeyAction::Ordinary,
        }
    } else if kl == 'w' {
        match prev_char {
            Some(p) => {
                let pl = ascii_lower(p);
                if pl == 'a' {
                    KeyAction::Modifier(VowelMod::Breve)
                } else if pl == 'o' || pl == 'u' {
                    KeyAction::Modifier(VowelMod::Horn)
                } else {
                    KeyAction::Ordinary
                }
            },
            None => KeyAction::Ordinary,
        }
    } else if kl == 'd' {
        match prev_char {
            Some(p) => if ascii_lower(p) == 'd' {
                KeyAction::Stroke
            } else {
                KeyAction::Ordinary
            },
            None => KeyAction::Ordinary,
        }
    } else if kl == 'z' {
        KeyAction::RemoveDiacritics
    } else if kl == 'c' || kl == 'g' || kl == 'k' || kl == 'n' || kl == 'p' || kl == 't' || kl
        == 'q' {
        match prev_char {
            Some(p) => if ascii_lower(p) == kl {
                if kl == 'c' {
                    KeyAction::QuickTelex('c', 'h')
                } else if kl == 'g' {
                    KeyAction::QuickTelex('g', 'h')
                } else if kl == 'k' {
                    KeyAction::QuickTelex('k', 'h')
                } else if kl == 'n' {
                    KeyAction::QuickTelex('n', 'h')
                } else if kl == 'p' {
                    KeyAction::QuickTelex('p', 'h')
                } else if kl == 't' {
                    KeyAction::QuickTelex('t', 'h')
                } else {
                    KeyAction::QuickTelex('q', 'u')
                }
            } else {
                KeyAction::Ordinary
            },
            None => KeyAction::Ordinary,
        }
    } else if key == '[' {
        KeyAction::InsertChar('ư')
    } else if key == ']' {
        KeyAction::InsertChar('ơ')
    } else {
        KeyAction::Ordinary
    }
}

fn vni_classify(key: char, prev_char: Option<char>) -> (r: KeyAction)
    ensures
        r == spec_vni_classify(key, prev_char),
{
    if key == '1' {
        KeyAction::Tone(ToneMark::Acute)
    } else if key == '2' {
        KeyAction::Tone(ToneMark::Grave)
    } else if key == '3' {
        KeyAction::Tone(ToneMark::Hook)
    } else if key == '4' {
        KeyAction::Tone(ToneMark::Tilde)
    } else if key == '5' {
        KeyAction::Tone(ToneMark::Dot)
    } else if key == '6' {
        KeyAction::Modifier(VowelMod::Circumflex)
    } else if key == '7' {
        KeyAction::Modifier(VowelMod::Horn)
    } else if key == '8' {
        KeyAction::Modifier(VowelMod::Breve)
    } else if key == '9' {
        match prev_char {
            Some(p) => if ascii_lower(p) == 'd' {
                KeyAction::Stroke
            } else {
                KeyAction::Ordinary
            },
            None => KeyAction::Ordinary,
        }
    } else if key == '0' {
        KeyAction::RemoveDiacritics
    } else {
        KeyAction::Ordinary
    }
}

/// The interface of an input method: a classification of each key in the
/// light of the previous character, and the set of its modifier keys.
pub trait InputMethod {
    /// The method's classification, as a specification.
    spec fn classify(&self, key: char, prev_char: Option<char>) -> KeyAction;

    /// The method's modifier keys, as a specification.
    spec fn modifier_key(&self, key: char) -> bool;

    /// The method's name.
    fn name(&self) -> &'static str;

    /// Classify a key.
    fn process(&self, key: char, prev_char: Option<char>) -> (r: KeyAction)
        ensures
            r == self.classify(key, prev_char),
    ;

    /// Whether a key is one of the method's modifier keys.
    fn is_modifier_key(&self, key: char) -> (r: bool)
        ensures
            r == self.modifier_key(key),
    ;
}

/// The Telex input method.
#[derive(Debug, Clone, Copy, PartialEq, Eq, Structural)]
pub struct Telex;

impl InputMethod for Telex {
    open spec fn classify(&self, key: char, prev_char: Option<char>) -> KeyAction {
        spec_telex_classify(key, prev_char)
    }

    open spec fn modifier_key(&self, key: char) -> bool {
        let kl = spec_ascii_lower(key);
        kl == 's' || kl == 'f' || kl == 'r' || kl == 'x' || kl == 'j' || kl == 'z'
    }

    fn name(&self) -> &'static str {
        "telex"
    }

    fn process(&self, key: char, prev_char: Option<char>) -> (r: KeyAction) {
        telex_classify(key, prev_char)
    }

    fn is_modifier_key(&self, key: char) -> (r: bool) {
        let kl = ascii_lower(key);
        kl == 's' || kl == 'f' || kl == 'r' || kl == 'x' || kl == 'j' || kl == 'z'
    }
}

/// The VNI input method.
#[derive(Debug, Clone, Copy, PartialEq, Eq, Structural)]
pub struct Vni;

impl InputMethod for Vni {
    open spec fn classify(&self, key: char, prev_char: Option<char>) -> KeyAction {
        spec_vni_classify(key, prev_char)
    }

    open spec fn modifier_key(&self, key: char) -> bool {
        '0' <= key <= '9'
    }

    fn name(&self) -> &'static str {
        "vni"
    }

    fn process(&self, key: char, prev_char: Option<char>) -> (r: KeyAction) {
        vni_classify(key, prev_char)
    }

    fn is_modifier_key(&self, key: char) -> (r: bool) {
        '0' <= key && key <= '9'
    }
}

/// The closed choice of input methods the engine selects from.
#[derive(Debug, Clone, Copy, PartialEq, Eq, Structural)]
pub enum Method {
    Telex,
    Vni,
}

impl Method {
    /// The selected method's classification.
    pub open spec fn spec_classify(self, key: char, prev_char: Option<char>) -> KeyAction {
        match self {
            Method::Telex => spec_telex_classify(key, prev_char),
            Method::Vni => spec_vni_classify(key, prev_char),
        }
    }

    /// Classify a key under the selected method.
    pub fn classify(&self, key: char, prev_char: Option<char>) -> (r: KeyAction)
        ensures
            r == self.spec_classify(key, prev_char),
    {
        match self {
            Method::Telex => telex_classify(key, prev_char),
            Method::Vni => vni_classify(key, prev_char),
        }
    }
}

/// Select an input method by name: `vni` (in any case) picks VNI, anything
/// else defaults to Telex.
pub fn get_method(name: &str) -> (r: Method)
    ensures
        r == (if spec_lower_seq(name@) =~= seq!['v', 'n', 'i'] {
            Method::Vni
        } else {
            Method::Telex
        }),
{
    let chars = chars_of_str(name);
    let low = crate::validation::lower_chars(&chars);
    let is_vni = low.len() == 3 && low[0] == 'v' && low[1] == 'n' && low[2] == 'i';
    proof {
        if is_vni {
            assert(spec_lower_seq(name@) =~= seq!['v', 'n', 'i']);
        } else {
            assert(!(spec_lower_seq(name@) =~= seq!['v', 'n', 'i']));
        }
    }
    if is_vni {
        Method::Vni
    } else {
        Method::Telex
    }
}

} // verus!
