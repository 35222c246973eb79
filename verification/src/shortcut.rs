//! The abbreviation table: user-defined triggers that expand to replacement
//! text, either immediately or at a word boundary.

use vstd::prelude::*;
use crate::strings::chars_of_str;

verus! {

/// Replacements are cut to this many code points when a shortcut is made.
pub const MAX_REPLACEMENT_LEN: usize = 63;

/// When a shortcut fires.
#[derive(Debug, Clone, Copy, PartialEq, Eq, Structural)]
pub enum TriggerCondition {
    /// As soon as the buffer equals the trigger.
    Immediate,
    /// Only when a word boundary key arrives.
    OnWordBoundary,
}

/// A replacement capped at [`MAX_REPLACEMENT_LEN`] code points.
pub open spec fn spec_capped(s: Seq<char>) -> Seq<char> {
    if s.len() <= MAX_REPLACEMENT_LEN {
        s
    } else {
        s.take(MAX_REPLACEMENT_LEN as int)
    }
}

/// One abbreviation: its trigger, its replacement, when it fires, and
/// whether it is currently enabled.
#[derive(Debug, Clone)]
pub struct Shortcut {
    pub trigger: String,
    pub replacement: String,
    pub condition: TriggerCondition,
    pub enabled: bool,
}

fn capped_string(replacement: &str) -> (r: String)
    ensures
        r@ == spec_capped(replacement@),
{
    let chars = chars_of_str(replacement);
    if chars.len() <= MAX_REPLACEMENT_LEN {
        let mut s = String::new();
        s.append(replacement);
        s
    } else {
        let mut cut: Vec<char> = Vec::new();
        let mut i: usize = 0;
        while i < MAX_REPLACEMENT_LEN
            invariant
                i <= MAX_REPLACEMENT_LEN,
                MAX_REPLACEMENT_LEN <= chars@.len(),
                chars@ == replacement@,
                cut@ == replacement@.take(i as int),
            decreases MAX_REPLACEMENT_LEN - i,
        {
            cut.push(chars[i]);
            i += 1;
            proof {
                assert(cut@ =~= replacement@.take(i as int));
            }
        }
        crate::strings::string_of_chars(&cut)
    }
}

impl Shortcut {
    /// A shortcut that fires at a word boundary.
    pub fn new(trigger: &str, replacement: &str) -> (r: Self)
        ensures
            r.trigger@ == trigger@,
            r.replacement@ == spec_capped(replacement@),
            r.condition == TriggerCondition::OnWordBoundary,
            r.enabled,
    {
        Shortcut {
            trigger: String::from_str(trigger),
            replacement: capped_string(replacement),
            condition: TriggerCondition::OnWordBoundary,
            enabled: true,
        }
    }

    /// A shortcut that fires as soon as it matches.
    pub fn immediate(trigger: &str, replacement: &str) -> (r: Self)
        ensures
            r.trigger@ == trigger@,
            r.replacement@ == spec_capped(replacement@),
            r.condition == TriggerCondition::Immediate,
            r.enabled,
    {
        Shortcut {
            trigger: String::from_str(trigger),
            replacement: capped_string(replacement),
            condition: TriggerCondition::Immediate,
            enabled: true,
        }
    }

    /// Enable this shortcut.
    pub fn enable(&mut self)
        ensures
            *final(self) == (Shortcut { enabled: true, ..*old(self) }),
    {
        self.enabled = true;
    }

    /// Disable this shortcut.
    pub fn disable(&mut self)
        ensures
            *final(self) == (Shortcut { enabled: false, ..*old(self) }),
    {
        self.enabled = false;
    }

    /// An identical copy.
    pub fn duplicate(&self) -> (r: Self)
        ensures
            r == *self,
    {
        Shortcut {
            trigger: self.trigger.clone(),
            replacement: self.replacement.clone(),
            condition: self.condition,
            enabled: self.enabled,
        }
    }
}

/// A fired match: how many code points to erase, what to type, and whether
/// the boundary key was appended to the replacement.
#[derive(Debug)]
pub struct ShortcutMatch {
    pub backspace_count: usize,
    pub replacement: String,
    pub include_trigger_key: bool,
}

/// The ghost form of a fired match.
pub struct MatchModel {
    pub backspace_count: int,
    pub replacement: Seq<char>,
    pub include_trigger_key: bool,
}

/// The first index whose entry's trigger equals the text.
pub open spec fn spec_find_trigger(entries: Seq<Shortcut>, t: Seq<char>, i: int) -> Option<int>
    decreases entries.len() - i,
{
    if i < 0 || i >= entries.len() {
        None
    } else if entries[i].trigger@ == t {
        Some(i)
    } else {
        spec_find_trigger(entries, t, i + 1)
    }
}

/// The scan of the table: the first enabled entry whose trigger equals the
/// buffer and whose condition holds decides the match.
pub open spec fn spec_match_scan(
    entries: Seq<Shortcut>,
    buffer: Seq<char>,
    trigger_char: Option<char>,
    at_boundary: bool,
    i: int,
) -> Option<MatchModel>
    decreases entries.len() - i,
{
    if i < 0 || i >= entries.len() {
        None
    } else {
        let e = entries[i];
        if e.trigger@ == buffer && e.enabled && e.condition == TriggerCondition::Immediate {
            Some(
                MatchModel {
                    backspace_count: e.trigger@.len() as int,
                    replacement: e.replacement@,
                    include_trigger_key: false,
                },
            )
        } else if e.trigger@ == buffer && e.enabled && e.condition
            == TriggerCondition::OnWordBoundary && at_boundary {
            Some(
                MatchModel {
                    backspace_count: e.trigger@.len() as int,
                    replacement: e.replacement@ + match trigger_char {
                        Some(c) => seq![c],
                        None => Seq::empty(),
                    },
                    include_trigger_key: true,
                },
            )
        } else {
            spec_match_scan(entries, buffer, trigger_char, at_boundary, i + 1)
        }
    }
}

/// What `try_match` answers.
pub open spec fn spec_try_match(
    enabled: bool,
    entries: Seq<Shortcut>,
    buffer: Seq<char>,
    trigger_char: Option<char>,
    at_boundary: bool,
) -> Option<MatchModel> {
    if !enabled {
        None
    } else {
        spec_match_scan(entries, buffer, trigger_char, at_boundary, 0)
    }
}

/// The abbreviation table, with a global on/off switch.
#[derive(Debug)]
pub struct ShortcutTable {
    pub enabled: bool,
    pub shortcuts: Vec<Shortcut>,
}

impl ShortcutTable {
    /// Triggers are unique within the table.
    pub open spec fn wf(&self) -> bool {
        forall|i: int, j: int|
            0 <= i < j < self.shortcuts@.len() ==> self.shortcuts@[i].trigger@
                != self.shortcuts@[j].trigger@
    }

    /// A fresh empty table, globally disabled.
    pub fn new() -> (r: Self)
        ensures
            r.wf(),
            !r.enabled,
            r.shortcuts@.len() == 0,
    {
        ShortcutTable { enabled: false, shortcuts: Vec::new() }
    }

    /// Switch the whole table on.
    pub fn enable(&mut self)
        ensures
            final(self).enabled,
            final(self).shortcuts@ == old(self).shortcuts@,
    {
        self.enabled = true;
    }

    /// Switch the whole table off.
    pub fn disable(&mut self)
        ensures
            !final(self).enabled,
            final(self).shortcuts@ == old(self).shortcuts@,
    {
        self.enabled = false;
    }

    /// Whether the table is switched on.
    pub fn is_enabled(&self) -> (r: bool)
        ensures
            r == self.enabled,
    {
        self.enabled
    }

    fn find_index(&self, trigger: &Vec<char>) -> (r: Option<usize>)
        ensures
            match r {
                Some(i) => spec_find_trigger(self.shortcuts@, trigger@, 0) == Some(i as int) && i
                    < self.shortcuts@.len(),
                None => spec_find_trigger(self.shortcuts@, trigger@, 0) is None,
            },
    {
        let mut i: usize = 0;
        while i < self.shortcuts.len()
            invariant
                i <= self.shortcuts@.len(),
                spec_find_trigger(self.shortcuts@, trigger@, 0) == spec_find_trigger(
                    self.shortcuts@,
                    trigger@,
                    i as int,
                ),
            decreases self.shortcuts@.len() - i,
        {
            let tchars = chars_of_str(self.shortcuts[i].trigger.as_str());
            if vec_eq(&tchars, trigger) {
                return Some(i);
            }
            i += 1;
        }
        None
    }

    /// Insert a shortcut, replacing any entry with the same trigger.
    pub fn add(&mut self, shortcut: Shortcut)
        requires
            old(self).wf(),
        ensures
            final(self).wf(),
            final(self).enabled == old(self).enabled,
            ({
                let entries = old(self).shortcuts@;
                match spec_find_trigger(entries, shortcut.trigger@, 0) {
                    Some(i) => final(self).shortcuts@ == entries.remove(i).push(shortcut),
                    None => final(self).shortcuts@ == entries.push(shortcut),
                }
            }),
    {
        let tchars = chars_of_str(shortcut.trigger.as_str());
        proof {
            lemma_find_trigger_found(self.shortcuts@, tchars@, 0);
        }
        match self.find_index(&tchars) {
            Some(i) => {
                self.shortcuts.remove(i);
                proof {
                    lemma_remove_no_trigger(old(self).shortcuts@, tchars@, i as int);
                }
                self.shortcuts.push(shortcut);
            },
            None => {
                proof {
                    lemma_find_trigger_none(old(self).shortcuts@, tchars@, 0);
                }
                self.shortcuts.push(shortcut);
            },
        }
    }

    /// Remove the shortcut with this trigger, returning it.
    pub fn remove(&mut self, trigger: &str) -> (r: Option<Shortcut>)
        requires
            old(self).wf(),
        ensures
            final(self).wf(),
            final(self).enabled == old(self).enabled,
            ({
                let entries = old(self).shortcuts@;
                match spec_find_trigger(entries, trigger@, 0) {
                    Some(i) => r == Some(entries[i]) && final(self).shortcuts@ == entries.remove(i),
                    None => r is None && final(self).shortcuts@ == entries,
                }
            }),
    {
        let tchars = chars_of_str(trigger);
        match self.find_index(&tchars) {
            Some(i) => {
                let e = self.shortcuts.remove(i);
                proof {
                    lemma_remove_keeps_unique(old(self).shortcuts@, i as int);
                }
                Some(e)
            },
            None => None,
        }
    }

    /// Enable the shortcut with this trigger; answers whether it exists.
    pub fn enable_shortcut(&mut self, trigger: &str) -> (r: bool)
        requires
            old(self).wf(),
        ensures
            final(self).wf(),
            final(self).enabled == old(self).enabled,
            ({
                let entries = old(self).shortcuts@;
                match spec_find_trigger(entries, trigger@, 0) {
                    Some(i) => r && final(self).shortcuts@ == entries.update(
                        i,
                        Shortcut { enabled: true, ..entries[i] },
                    ),
                    None => !r && final(self).shortcuts@ == entries,
                }
            }),
    {
        let tchars = chars_of_str(trigger);
        match self.find_index(&tchars) {
            Some(i) => {
                let e = self.shortcuts.remove(i);
                let e2 = Shortcut {
                    trigger: e.trigger,
                    replacement: e.replacement,
                    condition: e.condition,
                    enabled: true,
                };
                self.shortcuts.insert(i, e2);
                proof {
                    assert(final(self).shortcuts@ =~= old(self).shortcuts@.update(
                        i as int,
                        Shortcut { enabled: true, ..old(self).shortcuts@[i as int] },
                    ));
                    lemma_update_same_trigger_keeps_unique(
                        old(self).shortcuts@,
                        i as int,
                        Shortcut { enabled: true, ..old(self).shortcuts@[i as int] },
                    );
                }
                true
            },
            None => false,
        }
    }

    /// Disable the shortcut with this trigger; answers whether it exists.
    pub fn disable_shortcut(&mut self, trigger: &str) -> (r: bool)
        requires
            old(self).wf(),
        ensures
            final(self).wf(),
            final(self).enabled == old(self).enabled,
            ({
                let entries = old(self).shortcuts@;
                match spec_find_trigger(entries, trigger@, 0) {
                    Some(i) => r && final(self).shortcuts@ == entries.update(
                        i,
                        Shortcut { enabled: false, ..entries[i] },
                    ),
                    None => !r && final(self).shortcuts@ == entries,
                }
            }),
    {
        let tchars = chars_of_str(trigger);
        match self.find_index(&tchars) {
            Some(i) => {
                let e = self.shortcuts.remove(i);
                let e2 = Shortcut {
                    trigger: e.trigger,
                    replacement: e.replacement,
                    condition: e.condition,
                    enabled: false,
                };
                self.shortcuts.insert(i, e2);
                proof {
                    assert(final(self).shortcuts@ =~= old(self).shortcuts@.update(
                        i as int,
                        Shortcut { enabled: false, ..old(self).shortcuts@[i as int] },
                    ));
                    lemma_update_same_trigger_keeps_unique(
                        old(self).shortcuts@,
                        i as int,
                        Shortcut { enabled: false, ..old(self).shortcuts@[i as int] },
                    );
                }
                true
            },
            None => false,
        }
    }

    /// Flip the enabled flag of the shortcut with this trigger.
    pub fn toggle(&mut self, trigger: &str) -> (r: bool)
        requires
            old(self).wf(),
        ensures
            final(self).wf(),
            final(self).enabled == old(self).enabled,
            ({
                let entries = old(self).shortcuts@;
                match spec_find_trigger(entries, trigger@, 0) {
                    Some(i) => r && final(self).shortcuts@ == entries.update(
                        i,
                        Shortcut { enabled: !entries[i].enabled, ..entries[i] },
                    ),
                    None => !r && final(self).shortcuts@ == entries,
                }
            }),
    {
        let tchars = chars_of_str(trigger);
        match self.find_index(&tchars) {
            Some(i) => {
                let e = self.shortcuts.remove(i);
                let flipped = !e.enabled;
                let e2 = Shortcut {
                    trigger: e.trigger,
                    replacement: e.replacement,
                    condition: e.condition,
                    enabled: flipped,
                };
                self.shortcuts.insert(i, e2);
                proof {
                    assert(final(self).shortcuts@ =~= old(self).shortcuts@.update(
                        i as int,
                        Shortcut {
                            enabled: !old(self).shortcuts@[i as int].enabled,
                            ..old(self).shortcuts@[i as int]
                        },
                    ));
                    lemma_update_same_trigger_keeps_unique(
                        old(self).shortcuts@,
                        i as int,
                        Shortcut {
                            enabled: !old(self).shortcuts@[i as int].enabled,
                            ..old(self).shortcuts@[i as int]
                        },
                    );
                }
                true
            },
            None => false,
        }
    }

    /// The shortcut with this trigger.
    pub fn get(&self, trigger: &str) -> (r: Option<&Shortcut>)
        ensures
            match spec_find_trigger(self.shortcuts@, trigger@, 0) {
                Some(i) => r is Some && *r->Some_0 == self.shortcuts@[i],
                None => r is None,
            },
    {
        let tchars = chars_of_str(trigger);
        match self.find_index(&tchars) {
            Some(i) => Some(&self.shortcuts[i]),
            None => None,
        }
    }

    /// Match the buffer against the table: the entry whose trigger equals
    /// the buffer fires if it is enabled and its condition holds.  A
    /// boundary match appends the boundary key to the replacement.
    pub fn try_match(
        &self,
        buffer: &str,
        trigger_char: Option<char>,
        is_word_boundary: bool,
    ) -> (r: Option<ShortcutMatch>)
        ensures
            ({
                let m = spec_try_match(
                    self.enabled,
                    self.shortcuts@,
                    buffer@,
                    trigger_char,
                    is_word_boundary,
                );
                match r {
                    Some(sm) => m is Some && sm.backspace_count as int == m->Some_0.backspace_count
                        && sm.replacement@ == m->Some_0.replacement && sm.include_trigger_key
                        == m->Some_0.include_trigger_key,
                    None => m is None,
                }
            }),
    {
        if !self.enabled {
            return None;
        }
        let bufv = chars_of_str(buffer);
        let mut i: usize = 0;
        while i < self.shortcuts.len()
            invariant
                i <= self.shortcuts@.len(),
                self.enabled,
                bufv@ == buffer@,
                spec_match_scan(self.shortcuts@, buffer@, trigger_char, is_word_boundary, 0)
                    == spec_match_scan(
                    self.shortcuts@,
                    buffer@,
                    trigger_char,
                    is_word_boundary,
                    i as int,
                ),
            decreases self.shortcuts@.len() - i,
        {
            let tchars = chars_of_str(self.shortcuts[i].trigger.as_str());
            if vec_eq(&tchars, &bufv) {
                let e = &self.shortcuts[i];
                if e.enabled && e.condition == TriggerCondition::Immediate {
                    return Some(
                        ShortcutMatch {
                            backspace_count: tchars.len(),
                            replacement: e.replacement.clone(),
                            include_trigger_key: false,
                        },
                    );
                }
                if e.enabled && e.condition == TriggerCondition::OnWordBoundary
                    && is_word_boundary {
                    let mut rep = e.replacement.clone();
                    match trigger_char {
                        Some(c) => {
                            rep.push(c);
                            proof {
                                assert(rep@ =~= e.replacement@ + seq![c]);
                            }
                        },
                        None => {
                            proof {
                                assert(rep@ =~= e.replacement@ + Seq::<char>::empty());
                            }
                        },
                    }
                    return Some(
                        ShortcutMatch {
                            backspace_count: tchars.len(),
                            replacement: rep,
                            include_trigger_key: true,
                        },
                    );
                }
            }
            i += 1;
        }
        None
    }

    /// Whether the table holds no shortcuts.
    pub fn is_empty(&self) -> (r: bool)
        ensures
            r == (self.shortcuts@.len() == 0),
    {
        self.shortcuts.len() == 0
    }

    /// The number of shortcuts held.
    pub fn len(&self) -> (r: usize)
        ensures
            r == self.shortcuts@.len(),
    {
        self.shortcuts.len()
    }

    /// Drop every shortcut.
    pub fn clear(&mut self)
        ensures
            final(self).wf(),
            final(self).enabled == old(self).enabled,
            final(self).shortcuts@.len() == 0,
    {
        self.shortcuts.clear();
    }

    /// All triggers, in table order.
    pub fn list_triggers(&self) -> (r: Vec<String>)
        ensures
            r@.len() == self.shortcuts@.len(),
            forall|i: int| 0 <= i < r@.len() ==> r@[i]@ == self.shortcuts@[i].trigger@,
    {
        let mut r: Vec<String> = Vec::new();
        let mut i: usize = 0;
        while i < self.shortcuts.len()
            invariant
                i <= self.shortcuts@.len(),
                r@.len() == i,
                forall|j: int| 0 <= j < i ==> r@[j]@ == self.shortcuts@[j].trigger@,
            decreases self.shortcuts@.len() - i,
        {
            r.push(self.shortcuts[i].trigger.clone());
            i += 1;
        }
        r
    }

    /// Copies of all shortcuts, in table order.
    pub fn get_all(&self) -> (r: Vec<Shortcut>)
        ensures
            r@ == self.shortcuts@,
    {
        let mut r: Vec<Shortcut> = Vec::new();
        let mut i: usize = 0;
        while i < self.shortcuts.len()
            invariant
                i <= self.shortcuts@.len(),
                r@ == self.shortcuts@.take(i as int),
            decreases self.shortcuts@.len() - i,
        {
            r.push(self.shortcuts[i].duplicate());
            i += 1;
            proof {
                assert(r@ =~= self.shortcuts@.take(i as int));
            }
        }
        proof {
            assert(self.shortcuts@.take(self.shortcuts@.len() as int) =~= self.shortcuts@);
        }
        r
    }

    /// The default table: common abbreviations, enabled, expanding at a
    /// word boundary except for `dc`, which expands immediately.
    pub fn with_defaults() -> (r: Self)
        ensures
            r.wf(),
            r.enabled,
            r.shortcuts@.len() == 5,
            r.shortcuts@[0].trigger@ == "vn"@ && r.shortcuts@[0].replacement@ == "Việt Nam"@
                && r.shortcuts@[0].condition == TriggerCondition::OnWordBoundary
                && r.shortcuts@[0].enabled,
            r.shortcuts@[1].trigger@ == "hcm"@ && r.shortcuts@[1].replacement@ == "Hồ Chí Minh"@
                && r.shortcuts@[1].condition == TriggerCondition::OnWordBoundary
                && r.shortcuts@[1].enabled,
            r.shortcuts@[2].trigger@ == "hn"@ && r.shortcuts@[2].replacement@ == "Hà Nội"@
                && r.shortcuts@[2].condition == TriggerCondition::OnWordBoundary
                && r.shortcuts@[2].enabled,
            r.shortcuts@[3].trigger@ == "dc"@ && r.shortcuts@[3].replacement@ == "được"@
                && r.shortcuts@[3].condition == TriggerCondition::Immediate
                && r.shortcuts@[3].enabled,
            r.shortcuts@[4].trigger@ == "ko"@ && r.shortcuts@[4].replacement@ == "không"@
                && r.shortcuts@[4].condition == TriggerCondition::OnWordBoundary
                && r.shortcuts@[4].enabled,
    {
        proof {
            reveal_strlit("vn");
            reveal_strlit("hcm");
            reveal_strlit("hn");
            reveal_strlit("dc");
            reveal_strlit("ko");
            reveal_strlit("Việt Nam");
            reveal_strlit("Hồ Chí Minh");
            reveal_strlit("Hà Nội");
            reveal_strlit("được");
            reveal_strlit("không");
        }
        let mut table = ShortcutTable::new();
        table.enabled = true;
        table.shortcuts.push(Shortcut::new("vn", "Việt Nam"));
        table.shortcuts.push(Shortcut::new("hcm", "Hồ Chí Minh"));
        table.shortcuts.push(Shortcut::new("hn", "Hà Nội"));
        table.shortcuts.push(Shortcut::immediate("dc", "được"));
        table.shortcuts.push(Shortcut::new("ko", "không"));
        proof {
            assert(table.shortcuts@[0].trigger@ == "vn"@);
            assert(table.shortcuts@[1].trigger@ == "hcm"@);
            assert(table.shortcuts@[2].trigger@ == "hn"@);
            assert(table.shortcuts@[3].trigger@ == "dc"@);
            assert(table.shortcuts@[4].trigger@ == "ko"@);
            assert("vn"@[0] == 'v' && "hn"@[0] == 'h' && "dc"@[0] == 'd' && "ko"@[0] == 'k');
            assert("hcm"@.len() == 3 && "hn"@.len() == 2 && "hcm"@[1] == 'c' && "hn"@[1] == 'n');
            assert("vn"@ != "hcm"@);
            assert("vn"@ != "hn"@);
            assert("vn"@ != "dc"@);
            assert("vn"@ != "ko"@);
            assert("hcm"@ != "hn"@);
            assert("hcm"@ != "dc"@);
            assert("hcm"@ != "ko"@);
            assert("hn"@ != "dc"@);
            assert("hn"@ != "ko"@);
            assert("dc"@ != "ko"@);
            assert forall|i: int, j: int|
                0 <= i < j < table.shortcuts@.len() implies table.shortcuts@[i].trigger@
                != table.shortcuts@[j].trigger@ by {
            }
        }
        table
    }
}

impl Default for ShortcutTable {
    fn default() -> (r: Self)
        ensures
            r.wf(),
            !r.enabled,
            r.shortcuts@.len() == 0,
    {
        ShortcutTable::new()
    }
}

/// Compare two character vectors.
pub fn vec_eq(a: &Vec<char>, b: &Vec<char>) -> (r: bool)
    ensures
        r == (a@ == b@),
{
    if a.len() != b.len() {
        return false;
    }
    let mut i: usize = 0;
    while i < a.len()
        invariant
            i <= a@.len(),
            a@.len() == b@.len(),
            forall|j: int| 0 <= j < i ==> a@[j] == b@[j],
        decreases a@.len() - i,
    {
        if a[i] != b[i] {
            return false;
        }
        i += 1;
    }
    proof {
        assert(a@ =~= b@);
    }
    true
}

/// A found index really carries the trigger.
proof fn lemma_find_trigger_found(entries: Seq<Shortcut>, t: Seq<char>, i: int)
    ensures
        match spec_find_trigger(entries, t, i) {
            Some(k) => i <= k < entries.len() && entries[k].trigger@ == t,
            None => true,
        },
    decreases entries.len() - i,
{
    if 0 <= i < entries.len() && entries[i].trigger@ != t {
        lemma_find_trigger_found(entries, t, i + 1);
    }
}

/// When the scan misses, no entry carries the trigger.
proof fn lemma_find_trigger_none(entries: Seq<Shortcut>, t: Seq<char>, i: int)
    requires
        0 <= i,
        spec_find_trigger(entries, t, i) is None,
    ensures
        forall|j: int| i <= j < entries.len() ==> entries[j].trigger@ != t,
    decreases entries.len() - i,
{
    if 0 <= i < entries.len() {
        lemma_find_trigger_none(entries, t, i + 1);
    }
}

/// Removing the unique holder of a trigger leaves a table without it, and
/// keeps the remaining triggers unique.
proof fn lemma_remove_no_trigger(entries: Seq<Shortcut>, t: Seq<char>, i: int)
    requires
        0 <= i < entries.len(),
        forall|a: int, b: int|
            0 <= a < b < entries.len() ==> entries[a].trigger@ != entries[b].trigger@,
        entries[i].trigger@ == t,
    ensures
        forall|j: int| 0 <= j < entries.remove(i).len() ==> entries.remove(i)[j].trigger@ != t,
        forall|a: int, b: int|
            0 <= a < b < entries.remove(i).len() ==> entries.remove(i)[a].trigger@ != entries.remove(
                i,
            )[b].trigger@,
{
    assert forall|j: int| 0 <= j < entries.remove(i).len() implies entries.remove(i)[j].trigger@
        != t by {
        if j < i {
            assert(entries.remove(i)[j] == entries[j]);
        } else {
            assert(entries.remove(i)[j] == entries[j + 1]);
        }
    }
    assert forall|a: int, b: int|
        0 <= a < b < entries.remove(i).len() implies entries.remove(i)[a].trigger@ != entries.remove(
        i,
    )[b].trigger@ by {
        let ra = if a < i {
            a
        } else {
            a + 1
        };
        let rb = if b < i {
            b
        } else {
            b + 1
        };
        assert(entries.remove(i)[a] == entries[ra]);
        assert(entries.remove(i)[b] == entries[rb]);
    }
}

/// Removing any entry keeps the remaining triggers unique.
proof fn lemma_remove_keeps_unique(entries: Seq<Shortcut>, i: int)
    requires
        0 <= i < entries.len(),
        forall|a: int, b: int|
            0 <= a < b < entries.len() ==> entries[a].trigger@ != entries[b].trigger@,
    ensures
        forall|a: int, b: int|
            0 <= a < b < entries.remove(i).len() ==> entries.remove(i)[a].trigger@ != entries.remove(
                i,
            )[b].trigger@,
{
    assert forall|a: int, b: int|
        0 <= a < b < entries.remove(i).len() implies entries.remove(i)[a].trigger@ != entries.remove(
        i,
    )[b].trigger@ by {
        let ra = if a < i {
            a
        } else {
            a + 1
        };
        let rb = if b < i {
            b
        } else {
            b + 1
        };
        assert(entries.remove(i)[a] == entries[ra]);
        assert(entries.remove(i)[b] == entries[rb]);
    }
}

/// Replacing an entry with one carrying the same trigger keeps triggers
/// unique.
proof fn lemma_update_same_trigger_keeps_unique(entries: Seq<Shortcut>, i: int, e: Shortcut)
    requires
        0 <= i < entries.len(),
        e.trigger@ == entries[i].trigger@,
        forall|a: int, b: int|
            0 <= a < b < entries.len() ==> entries[a].trigger@ != entries[b].trigger@,
    ensures
        forall|a: int, b: int|
            0 <= a < b < entries.update(i, e).len() ==> entries.update(i, e)[a].trigger@
                != entries.update(i, e)[b].trigger@,
{
}

} // verus!
