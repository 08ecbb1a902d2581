//! Durable user preferences and the rule that keeps one character class
//! enabled.

use crate::charset::{CharClass, GenerationOptions};
use vstd::prelude::*;

verus! {

/// Group count of a fresh configuration.
pub const DEFAULT_GROUPS: i32 = 3;

/// Smallest group count a configuration holds.
pub const MIN_GROUPS: i32 = 1;

/// Largest group count a configuration holds.
pub const MAX_GROUPS: i32 = 10;

/// The group count nearest to `groups` among those a configuration holds.
pub open spec fn nearest_groups(groups: int) -> int {
    if groups < MIN_GROUPS {
        MIN_GROUPS as int
    } else if groups > MAX_GROUPS {
        MAX_GROUPS as int
    } else {
        groups
    }
}

/// The preferences of a session.
#[derive(Clone, Copy, Debug, PartialEq, Eq, Structural)]
pub struct SessionConfig {
    pub groups: i32,
    pub auto_close: bool,
    pub copy_immediately: bool,
    pub allow_lowercase: bool,
    pub allow_uppercase: bool,
    pub allow_digits: bool,
    pub allow_special: bool,
}

/// A configuration record as durable storage held it. The four class flags
/// came later than the other fields, so a record may lack any of them.
#[derive(Clone, Copy, Debug, PartialEq, Eq, Structural)]
pub struct StoredConfig {
    pub groups: i32,
    pub auto_close: bool,
    pub copy_immediately: bool,
    pub allow_lowercase: Option<bool>,
    pub allow_uppercase: Option<bool>,
    pub allow_digits: Option<bool>,
    pub allow_special: Option<bool>,
}

/// A configuration as loaded, and whether it differs from what storage held
/// and has to be saved again.
#[derive(Clone, Copy, Debug, PartialEq, Eq, Structural)]
pub struct LoadedConfig {
    pub config: SessionConfig,
    pub dirty: bool,
}

/// One field of the configuration with a value for it.
#[derive(Clone, Copy, Debug, PartialEq, Eq, Structural)]
pub enum Field {
    Groups(i32),
    AutoClose(bool),
    CopyImmediately(bool),
    AllowLowercase(bool),
    AllowUppercase(bool),
    AllowDigits(bool),
    AllowSpecial(bool),
}

/// What became of an attempt to switch a character class on or off.
#[derive(Clone, Copy, Debug, PartialEq, Eq, Structural)]
pub enum ToggleOutcome {
    /// The flag took the requested value; the configuration has to be saved.
    Accepted,
    /// Switching the class off would have left none enabled. Nothing
    /// changed, and the control has to show the class as enabled again.
    Vetoed,
    /// The flag already had the requested value. Nothing changed.
    Unchanged,
}

/// A flag that storage may lack; a missing one counts as set.
pub open spec fn flag_or_set(flag: Option<bool>) -> bool {
    match flag {
        Some(value) => value,
        None => true,
    }
}

impl StoredConfig {
    /// The configuration the record stands for, missing flags set.
    pub open spec fn resolved(self) -> SessionConfig {
        SessionConfig {
            groups: self.groups,
            auto_close: self.auto_close,
            copy_immediately: self.copy_immediately,
            allow_lowercase: flag_or_set(self.allow_lowercase),
            allow_uppercase: flag_or_set(self.allow_uppercase),
            allow_digits: flag_or_set(self.allow_digits),
            allow_special: flag_or_set(self.allow_special),
        }
    }
}

impl SessionConfig {
    /// The configuration used when storage holds none that can be read.
    pub open spec fn fresh() -> SessionConfig {
        SessionConfig {
            groups: DEFAULT_GROUPS,
            auto_close: true,
            copy_immediately: false,
            allow_lowercase: true,
            allow_uppercase: true,
            allow_digits: true,
            allow_special: true,
        }
    }

    /// Whether at least one class is enabled.
    pub open spec fn has_charset(self) -> bool {
        self.allow_lowercase || self.allow_uppercase || self.allow_digits || self.allow_special
    }

    /// Whether the group count is one the control offers: 1 to 10.
    pub open spec fn groups_in_range(self) -> bool {
        MIN_GROUPS <= self.groups <= MAX_GROUPS
    }

    /// The invariant of a configuration: a class is enabled and the group
    /// count lies between 1 and 10.
    pub open spec fn wf(self) -> bool {
        self.has_charset() && self.groups_in_range()
    }

    /// Whether the class is enabled.
    pub open spec fn allows(self, class: CharClass) -> bool {
        match class {
            CharClass::Lowercase => self.allow_lowercase,
            CharClass::Uppercase => self.allow_uppercase,
            CharClass::Digit => self.allow_digits,
            CharClass::Special => self.allow_special,
        }
    }

    /// The generation options the class flags stand for.
    pub open spec fn options_spec(self) -> GenerationOptions {
        GenerationOptions {
            lowercase: self.allow_lowercase,
            uppercase: self.allow_uppercase,
            digits: self.allow_digits,
            special: self.allow_special,
        }
    }

    /// The configuration with one field replaced.
    pub open spec fn with_field(self, field: Field) -> SessionConfig {
        match field {
            Field::Groups(groups) => SessionConfig { groups, ..self },
            Field::AutoClose(auto_close) => SessionConfig { auto_close, ..self },
            Field::CopyImmediately(copy_immediately) => SessionConfig { copy_immediately, ..self },
            Field::AllowLowercase(allow_lowercase) => SessionConfig { allow_lowercase, ..self },
            Field::AllowUppercase(allow_uppercase) => SessionConfig { allow_uppercase, ..self },
            Field::AllowDigits(allow_digits) => SessionConfig { allow_digits, ..self },
            Field::AllowSpecial(allow_special) => SessionConfig { allow_special, ..self },
        }
    }

    /// The configuration with the flag of one class replaced.
    pub open spec fn with_class(self, class: CharClass, enabled: bool) -> SessionConfig {
        match class {
            CharClass::Lowercase => SessionConfig { allow_lowercase: enabled, ..self },
            CharClass::Uppercase => SessionConfig { allow_uppercase: enabled, ..self },
            CharClass::Digit => SessionConfig { allow_digits: enabled, ..self },
            CharClass::Special => SessionConfig { allow_special: enabled, ..self },
        }
    }

    /// The configuration with its invariant restored: a group count outside
    /// 1 to 10 gives way to the nearest bound, and lowercase is forced on
    /// when no class is enabled. Nothing else changes.
    pub open spec fn repaired(self) -> SessionConfig {
        SessionConfig {
            groups: nearest_groups(self.groups as int) as i32,
            allow_lowercase: self.allow_lowercase || !self.has_charset(),
            ..self
        }
    }

    /// What loading yields for what storage held: the fresh configuration
    /// when nothing could be read, else the record with missing flags set and
    /// the invariant restored. The result is dirty, to be saved again, when
    /// restoring changed anything.
    pub open spec fn loaded(stored: Option<StoredConfig>) -> LoadedConfig {
        match stored {
            None => LoadedConfig { config: SessionConfig::fresh(), dirty: false },
            Some(record) => LoadedConfig {
                config: record.resolved().repaired(),
                dirty: !record.resolved().wf(),
            },
        }
    }

    /// What an attempt to give the flag of `class` the value `requested`
    /// comes to. Switching off the only enabled class is vetoed.
    pub open spec fn toggle_outcome(self, class: CharClass, requested: bool) -> ToggleOutcome {
        if self.allows(class) == requested {
            ToggleOutcome::Unchanged
        } else if !requested && !self.with_class(class, false).has_charset() {
            ToggleOutcome::Vetoed
        } else {
            ToggleOutcome::Accepted
        }
    }

    /// The configuration after an attempt to give the flag of `class` the
    /// value `requested`: changed only when the attempt is accepted.
    pub open spec fn toggled(self, class: CharClass, requested: bool) -> SessionConfig {
        if self.toggle_outcome(class, requested) is Accepted {
            self.with_class(class, requested)
        } else {
            self
        }
    }

    /// Loads the configuration from what storage held; `None` stands for a
    /// missing or unreadable record. Never fails, and the result always has
    /// a class enabled and a group count between 1 and 10.
    pub fn load(stored: Option<StoredConfig>) -> (out: LoadedConfig)
        ensures
            out == SessionConfig::loaded(stored),
            out.config.has_charset(),
            MIN_GROUPS <= out.config.groups <= MAX_GROUPS,
    {
        match stored {
            None => LoadedConfig { config: SessionConfig::default(), dirty: false },
            Some(record) => {
                let mut config = SessionConfig {
                    groups: record.groups,
                    auto_close: record.auto_close,
                    copy_immediately: record.copy_immediately,
                    allow_lowercase: flag_or(record.allow_lowercase),
                    allow_uppercase: flag_or(record.allow_uppercase),
                    allow_digits: flag_or(record.allow_digits),
                    allow_special: flag_or(record.allow_special),
                };
                let mut dirty = false;
                if config.groups < MIN_GROUPS {
                    config.groups = MIN_GROUPS;
                    dirty = true;
                } else if config.groups > MAX_GROUPS {
                    config.groups = MAX_GROUPS;
                    dirty = true;
                }
                if !config.is_valid() {
                    config.allow_lowercase = true;
                    dirty = true;
                }
                LoadedConfig { config, dirty }
            },
        }
    }

    /// The record to hand to storage.
    pub fn to_stored(&self) -> (record: StoredConfig)
        ensures
            record.resolved() == *self,
            record.allow_lowercase is Some,
            record.allow_uppercase is Some,
            record.allow_digits is Some,
            record.allow_special is Some,
    {
        StoredConfig {
            groups: self.groups,
            auto_close: self.auto_close,
            copy_immediately: self.copy_immediately,
            allow_lowercase: Some(self.allow_lowercase),
            allow_uppercase: Some(self.allow_uppercase),
            allow_digits: Some(self.allow_digits),
            allow_special: Some(self.allow_special),
        }
    }

    /// Whether at least one class is enabled.
    pub fn is_valid(&self) -> (valid: bool)
        ensures
            valid == self.has_charset(),
    {
        self.allow_lowercase || self.allow_uppercase || self.allow_digits || self.allow_special
    }

    /// The generation options the class flags stand for.
    pub fn options(&self) -> (options: GenerationOptions)
        ensures
            options == self.options_spec(),
    {
        GenerationOptions::new(
            self.allow_lowercase,
            self.allow_uppercase,
            self.allow_digits,
            self.allow_special,
        )
    }

    /// Whether the class is enabled.
    pub fn is_allowed(&self, class: CharClass) -> (allowed: bool)
        ensures
            allowed == self.allows(class),
    {
        match class {
            CharClass::Lowercase => self.allow_lowercase,
            CharClass::Uppercase => self.allow_uppercase,
            CharClass::Digit => self.allow_digits,
            CharClass::Special => self.allow_special,
        }
    }

    /// Replaces one field, unchecked. Keeping the invariant is the caller's
    /// business: class flags that a user switches go through
    /// `toggle_charset`, and a group count comes from a control that offers
    /// 1 to 10 only.
    pub fn set_field(&mut self, field: Field)
        ensures
            *final(self) == old(self).with_field(field),
            field matches Field::Groups(groups) ==> (final(self).groups_in_range() <==> MIN_GROUPS
                <= groups <= MAX_GROUPS),
            !(field is Groups) && old(self).groups_in_range() ==> final(self).groups_in_range(),
    {
        match field {
            Field::Groups(groups) => {
                self.groups = groups;
            },
            Field::AutoClose(auto_close) => {
                self.auto_close = auto_close;
            },
            Field::CopyImmediately(copy_immediately) => {
                self.copy_immediately = copy_immediately;
            },
            Field::AllowLowercase(allow_lowercase) => {
                self.allow_lowercase = allow_lowercase;
            },
            Field::AllowUppercase(allow_uppercase) => {
                self.allow_uppercase = allow_uppercase;
            },
            Field::AllowDigits(allow_digits) => {
                self.allow_digits = allow_digits;
            },
            Field::AllowSpecial(allow_special) => {
                self.allow_special = allow_special;
            },
        }
    }

    /// Arbitrates a user's attempt to switch a class on or off. The flag
    /// changes only when the attempt is accepted; a veto leaves the
    /// configuration as it was, with the class still enabled.
    pub fn toggle_charset(&mut self, class: CharClass, requested: bool) -> (outcome: ToggleOutcome)
        ensures
            outcome == old(self).toggle_outcome(class, requested),
            *final(self) == old(self).toggled(class, requested),
            outcome is Vetoed ==> final(self).allows(class),
            old(self).has_charset() ==> final(self).has_charset(),
            old(self).wf() ==> final(self).wf(),
    {
        if self.is_allowed(class) == requested {
            return ToggleOutcome::Unchanged;
        }
        if !requested {
            let others = match class {
                CharClass::Lowercase => self.allow_uppercase || self.allow_digits
                    || self.allow_special,
                CharClass::Uppercase => self.allow_lowercase || self.allow_digits
                    || self.allow_special,
                CharClass::Digit => self.allow_lowercase || self.allow_uppercase
                    || self.allow_special,
                CharClass::Special => self.allow_lowercase || self.allow_uppercase
                    || self.allow_digits,
            };
            if !others {
                return ToggleOutcome::Vetoed;
            }
        }
        match class {
            CharClass::Lowercase => {
                self.allow_lowercase = requested;
            },
            CharClass::Uppercase => {
                self.allow_uppercase = requested;
            },
            CharClass::Digit => {
                self.allow_digits = requested;
            },
            CharClass::Special => {
                self.allow_special = requested;
            },
        }
        ToggleOutcome::Accepted
    }

    /// Loading yields a configuration with a class enabled and a group
    /// count between 1 and 10, whatever storage held.
    pub proof fn lemma_loaded_is_wf(stored: Option<StoredConfig>)
        ensures
            SessionConfig::loaded(stored).config.has_charset(),
            SessionConfig::loaded(stored).config.groups_in_range(),
    {
    }

    /// A record that stands for a configuration within the invariant loads
    /// as that configuration, field for field, and is not dirty. So what
    /// `to_stored` hands to storage loads as what it was made from.
    pub proof fn lemma_sound_record_loads_unchanged(record: StoredConfig)
        requires
            record.resolved().wf(),
        ensures
            SessionConfig::loaded(Some(record)) == (LoadedConfig {
                config: record.resolved(),
                dirty: false,
            }),
    {
    }

    /// A record is dirty after loading exactly when its group count lies
    /// outside 1 to 10 or it enables no class, and loading changes nothing
    /// but the group count and the lowercase flag.
    pub proof fn lemma_loading_repairs_only_what_is_broken(record: StoredConfig)
        ensures
            ({
                let read = record.resolved();
                let out = SessionConfig::loaded(Some(record));
                &&& out.dirty <==> !read.groups_in_range() || !read.has_charset()
                &&& out.config.groups == nearest_groups(read.groups as int)
                &&& out.config.allow_lowercase == (read.allow_lowercase || !read.has_charset())
                &&& out.config.auto_close == read.auto_close
                &&& out.config.copy_immediately == read.copy_immediately
                &&& out.config.allow_uppercase == read.allow_uppercase
                &&& out.config.allow_digits == read.allow_digits
                &&& out.config.allow_special == read.allow_special
            }),
    {
    }

    /// Switching off the last enabled class is vetoed: the configuration
    /// stays as it was and the class stays enabled.
    pub proof fn lemma_last_class_stays(self, class: CharClass)
        requires
            self.allows(class),
            forall|other: CharClass| other != class ==> !self.allows(other),
        ensures
            self.toggle_outcome(class, false) == ToggleOutcome::Vetoed,
            self.toggled(class, false) == self,
            self.toggled(class, false).allows(class),
    {
        assert(!self.allows(CharClass::Lowercase) || class == CharClass::Lowercase);
        assert(!self.allows(CharClass::Uppercase) || class == CharClass::Uppercase);
        assert(!self.allows(CharClass::Digit) || class == CharClass::Digit);
        assert(!self.allows(CharClass::Special) || class == CharClass::Special);
    }
}

impl Default for SessionConfig {
    fn default() -> (config: Self)
        ensures
            config == SessionConfig::fresh(),
    {
        SessionConfig {
            groups: DEFAULT_GROUPS,
            auto_close: true,
            copy_immediately: false,
            allow_lowercase: true,
            allow_uppercase: true,
            allow_digits: true,
            allow_special: true,
        }
    }
}

/// The flag, or set when storage lacked it.
fn flag_or(flag: Option<bool>) -> (value: bool)
    ensures
        value == flag_or_set(flag),
{
    match flag {
        Some(value) => value,
        None => true,
    }
}

} // verus!
