//! Character classes and the sampling alphabet derived from the enabled ones.

use vstd::prelude::*;

verus! {

/// One of the four character classes a password can draw from.
#[derive(Clone, Copy, Debug, PartialEq, Eq, Structural)]
pub enum CharClass {
    Lowercase,
    Uppercase,
    Digit,
    Special,
}

impl CharClass {
    /// Whether the character belongs to the class.
    pub open spec fn holds(self, c: char) -> bool {
        match self {
            CharClass::Lowercase => 'a' <= c <= 'z',
            CharClass::Uppercase => 'A' <= c <= 'Z',
            CharClass::Digit => '0' <= c <= '9',
            CharClass::Special => c == '!' || c == '@' || c == '#' || c == '$' || c == '%' || c
                == '^' || c == '&' || c == '*',
        }
    }

    /// The alphabet of the class as bytes, in its fixed order.
    pub open spec fn alphabet(self) -> Seq<u8> {
        match self {
            CharClass::Lowercase => Seq::new(26, |i: int| ('a' as u8 + i) as u8),
            CharClass::Uppercase => Seq::new(26, |i: int| ('A' as u8 + i) as u8),
            CharClass::Digit => Seq::new(10, |i: int| ('0' as u8 + i) as u8),
            CharClass::Special => seq![
                '!' as u8,
                '@' as u8,
                '#' as u8,
                '$' as u8,
                '%' as u8,
                '^' as u8,
                '&' as u8,
                '*' as u8,
            ],
        }
    }

    /// A byte is in the alphabet of a class exactly when its character belongs
    /// to the class.
    pub proof fn lemma_alphabet_holds(self, b: u8)
        ensures
            self.alphabet().contains(b) <==> self.holds(b as char),
    {
        let a = self.alphabet();
        match self {
            CharClass::Lowercase => {
                if 'a' as u8 <= b <= 'z' as u8 {
                    assert(a[b - 'a' as u8] == b);
                }
            },
            CharClass::Uppercase => {
                if 'A' as u8 <= b <= 'Z' as u8 {
                    assert(a[b - 'A' as u8] == b);
                }
            },
            CharClass::Digit => {
                if '0' as u8 <= b <= '9' as u8 {
                    assert(a[b - '0' as u8] == b);
                }
            },
            CharClass::Special => {
                assert(a[0] == '!' as u8 && a[1] == '@' as u8 && a[2] == '#' as u8);
                assert(a[3] == '$' as u8 && a[4] == '%' as u8 && a[5] == '^' as u8);
                assert(a[6] == '&' as u8 && a[7] == '*' as u8);
            },
        }
    }

    /// Builds the alphabet of the class.
    pub fn letters(self) -> (out: Vec<u8>)
        ensures
            out@ == self.alphabet(),
    {
        match self {
            CharClass::Lowercase => byte_run('a' as u8, 26),
            CharClass::Uppercase => byte_run('A' as u8, 26),
            CharClass::Digit => byte_run('0' as u8, 10),
            CharClass::Special => {
                let out = vec![
                    '!' as u8,
                    '@' as u8,
                    '#' as u8,
                    '$' as u8,
                    '%' as u8,
                    '^' as u8,
                    '&' as u8,
                    '*' as u8,
                ];
                assert(out@ =~= self.alphabet());
                out
            },
        }
    }
}

/// `count` consecutive bytes starting at `first`.
fn byte_run(first: u8, count: u8) -> (out: Vec<u8>)
    requires
        first + count <= 256,
    ensures
        out@ == Seq::new(count as nat, |i: int| (first + i) as u8),
{
    let mut out: Vec<u8> = Vec::new();
    let mut i: u8 = 0;
    while i < count
        invariant
            i <= count,
            first + count <= 256,
            out@ == Seq::new(i as nat, |k: int| (first + k) as u8),
        decreases count - i,
    {
        out.push(first + i);
        i += 1;
        assert(out@ =~= Seq::new(i as nat, |k: int| (first + k) as u8));
    }
    out
}

/// Bytes read as characters, one for one.
pub open spec fn as_chars(bytes: Seq<u8>) -> Seq<char> {
    Seq::new(bytes.len(), |i: int| bytes[i] as char)
}

/// One when the character belongs to the class, zero when it does not.
pub open spec fn weight(class: CharClass, c: char) -> nat {
    if class.holds(c) {
        1
    } else {
        0
    }
}

/// How many characters of the text belong to the class.
pub open spec fn count_in(text: Seq<char>, class: CharClass) -> nat
    decreases text.len(),
{
    if text.len() == 0 {
        0
    } else {
        count_in(text.drop_last(), class) + weight(class, text.last())
    }
}

/// Appending a character adds its weight to the count.
pub proof fn lemma_count_push(text: Seq<char>, c: char, class: CharClass)
    ensures
        count_in(text.push(c), class) == count_in(text, class) + weight(class, c),
{
    assert(text.push(c).drop_last() =~= text);
}

/// The count of a concatenation is the sum of the counts of its parts.
pub proof fn lemma_count_concat(a: Seq<char>, b: Seq<char>, class: CharClass)
    ensures
        count_in(a + b, class) == count_in(a, class) + count_in(b, class),
    decreases b.len(),
{
    if b.len() == 0 {
        assert(a + b =~= a);
    } else {
        lemma_count_concat(a, b.drop_last(), class);
        assert((a + b).drop_last() =~= a + b.drop_last());
    }
}

/// Replacing one character changes the count by the difference of the two
/// weights.
pub proof fn lemma_count_update(text: Seq<char>, i: int, c: char, class: CharClass)
    requires
        0 <= i < text.len(),
    ensures
        count_in(text.update(i, c), class) + weight(class, text[i]) == count_in(text, class)
            + weight(class, c),
    decreases text.len(),
{
    let changed = text.update(i, c);
    if i == text.len() - 1 {
        assert(changed.drop_last() =~= text.drop_last());
    } else {
        lemma_count_update(text.drop_last(), i, c, class);
        assert(changed.drop_last() =~= text.drop_last().update(i, c));
    }
}

/// A text whose characters all belong to the class counts its own length.
pub proof fn lemma_count_all(text: Seq<char>, class: CharClass)
    requires
        forall|i: int| 0 <= i < text.len() ==> class.holds(text[i]),
    ensures
        count_in(text, class) == text.len(),
    decreases text.len(),
{
    if text.len() > 0 {
        lemma_count_all(text.drop_last(), class);
    }
}

/// A text none of whose characters belongs to the class counts zero.
pub proof fn lemma_count_none(text: Seq<char>, class: CharClass)
    requires
        forall|i: int| 0 <= i < text.len() ==> !class.holds(text[i]),
    ensures
        count_in(text, class) == 0,
    decreases text.len(),
{
    if text.len() > 0 {
        lemma_count_none(text.drop_last(), class);
    }
}

/// Which character classes a generation request may draw from.
#[derive(Clone, Copy, Debug, PartialEq, Eq, Structural)]
pub struct GenerationOptions {
    pub lowercase: bool,
    pub uppercase: bool,
    pub digits: bool,
    pub special: bool,
}

/// The alphabet of a class when it is enabled, nothing when it is not.
pub open spec fn alphabet_if(enabled: bool, class: CharClass) -> Seq<u8> {
    if enabled {
        class.alphabet()
    } else {
        Seq::empty()
    }
}

impl GenerationOptions {
    /// A request is valid when at least one class is enabled.
    pub open spec fn valid(self) -> bool {
        self.lowercase || self.uppercase || self.digits || self.special
    }

    /// Whether the character belongs to one of the enabled classes.
    pub open spec fn admits(self, c: char) -> bool {
        ||| self.lowercase && CharClass::Lowercase.holds(c)
        ||| self.uppercase && CharClass::Uppercase.holds(c)
        ||| self.digits && CharClass::Digit.holds(c)
        ||| self.special && CharClass::Special.holds(c)
    }

    /// The sampling alphabet: the alphabets of the enabled classes, joined in
    /// the order lowercase, uppercase, digits, special.
    pub open spec fn pool_spec(self) -> Seq<u8> {
        alphabet_if(self.lowercase, CharClass::Lowercase) + alphabet_if(
            self.uppercase,
            CharClass::Uppercase,
        ) + alphabet_if(self.digits, CharClass::Digit) + alphabet_if(
            self.special,
            CharClass::Special,
        )
    }

    /// Options with the given classes enabled.
    pub fn new(lowercase: bool, uppercase: bool, digits: bool, special: bool) -> (options: Self)
        ensures
            options == (GenerationOptions { lowercase, uppercase, digits, special }),
    {
        GenerationOptions { lowercase, uppercase, digits, special }
    }

    /// Builds the sampling alphabet afresh.
    pub fn pool(&self) -> (pool: Vec<u8>)
        ensures
            pool@ == self.pool_spec(),
    {
        let mut pool: Vec<u8> = Vec::new();
        if self.lowercase {
            let mut letters = CharClass::Lowercase.letters();
            pool.append(&mut letters);
        }
        if self.uppercase {
            let mut letters = CharClass::Uppercase.letters();
            pool.append(&mut letters);
        }
        if self.digits {
            let mut letters = CharClass::Digit.letters();
            pool.append(&mut letters);
        }
        if self.special {
            let mut letters = CharClass::Special.letters();
            pool.append(&mut letters);
        }
        assert(pool@ =~= self.pool_spec());
        pool
    }

    /// Whether at least one class is enabled.
    pub fn is_valid(&self) -> (valid: bool)
        ensures
            valid == self.valid(),
    {
        self.lowercase || self.uppercase || self.digits || self.special
    }

    /// The pool is empty exactly when the request is invalid.
    pub proof fn lemma_pool_empty_iff_invalid(self)
        ensures
            self.pool_spec().len() == 0 <==> !self.valid(),
            self.pool_spec().len() == (if self.lowercase { 26nat } else { 0 })
                + (if self.uppercase { 26nat } else { 0 })
                + (if self.digits { 10nat } else { 0 })
                + (if self.special { 8nat } else { 0 }),
    {
    }

    /// A byte is in the pool exactly when its character belongs to an enabled
    /// class.
    pub proof fn lemma_pool_admits(self, b: u8)
        ensures
            self.pool_spec().contains(b) <==> self.admits(b as char),
    {
        CharClass::Lowercase.lemma_alphabet_holds(b);
        CharClass::Uppercase.lemma_alphabet_holds(b);
        CharClass::Digit.lemma_alphabet_holds(b);
        CharClass::Special.lemma_alphabet_holds(b);
        let l = alphabet_if(self.lowercase, CharClass::Lowercase);
        let u = alphabet_if(self.uppercase, CharClass::Uppercase);
        let d = alphabet_if(self.digits, CharClass::Digit);
        let s = alphabet_if(self.special, CharClass::Special);
        lemma_concat_contains(l, u, b);
        lemma_concat_contains(l + u, d, b);
        lemma_concat_contains(l + u + d, s, b);
    }
}

/// A value is in a concatenation exactly when it is in one of the two parts.
proof fn lemma_concat_contains(a: Seq<u8>, b: Seq<u8>, x: u8)
    ensures
        (a + b).contains(x) <==> a.contains(x) || b.contains(x),
{
    if a.contains(x) {
        let i = choose|i: int| 0 <= i < a.len() && a[i] == x;
        assert((a + b)[i] == x);
    }
    if b.contains(x) {
        let i = choose|i: int| 0 <= i < b.len() && b[i] == x;
        assert((a + b)[a.len() + i] == x);
    }
    if (a + b).contains(x) {
        let i = choose|i: int| 0 <= i < (a + b).len() && (a + b)[i] == x;
        if i < a.len() {
            assert(a[i] == x);
        } else {
            assert(b[i - a.len()] == x);
        }
    }
}

} // verus!
