//! Text is how the game shows itself. This module holds what it takes to lay
//! out game information in monospaced text: enriched strings, lines of an
//! exact length, wrapped words, bars and frames.
use vstd::prelude::*;
pub mod text_util;
use crate::strutil::{
    byte_len, decimal, push_decimal, push_repeated, push_zero_padded, repeated, str_eq, string_len, zero_padded, magnitude,
};

verus! {

/// The ways to format monospaced text. Whatever the way, the text takes the
/// same room once it is shown where it belongs.
#[derive(Clone, Copy, Debug, PartialEq, Eq, Structural)]
pub enum TextFormatting {
    /// The plain string and nothing else
    Plain,
    /// The string in a `<span>` whose attributes hold more information
    Html,
    /// The string with colour codes for a console
    Console,
}

/// `plain` in a `<span>` of class `info_class`, with `more_info` as its
/// `data-info` attribute where there is any.
pub open spec fn html_text(plain: Seq<char>, info_class: Seq<char>, more_info: Option<Seq<char>>) -> Seq<
    char,
> {
    "<span class=\""@ + info_class + "\""@ + (match more_info {
        None => Seq::empty(),
        Some(info) => "data-info=\""@ + info + "\""@,
    }) + ">"@ + plain + "</span>"@
}

/// The colour code for an information class: red for hit points, blue for
/// mental points and physical things, green for action points, none for
/// anything else.
pub open spec fn console_color(info_class: Seq<char>) -> Seq<char> {
    if info_class == "hp"@ {
        "\x1b[31m"@
    } else if info_class == "mp"@ {
        "\x1b[34m"@
    } else if info_class == "ap"@ {
        "\x1b[32m"@
    } else if info_class == "PHY"@ {
        "\x1b[34m"@
    } else {
        ""@
    }
}

/// `plain` between the colour code of `info_class` and the code that ends
/// all colours.
pub open spec fn console_text(plain: Seq<char>, info_class: Seq<char>) -> Seq<char> {
    console_color(info_class) + plain + "\x1b[0m"@
}

/// `plain` as `formatting` shows it.
pub open spec fn enriched(
    formatting: TextFormatting,
    plain: Seq<char>,
    info_class: Seq<char>,
    more_info: Option<Seq<char>>,
) -> Seq<char> {
    match formatting {
        TextFormatting::Plain => plain,
        TextFormatting::Html => html_text(plain, info_class, more_info),
        TextFormatting::Console => console_text(plain, info_class),
    }
}

/// The characters of an optional string.
pub open spec fn info_view(info: Option<String>) -> Option<Seq<char>> {
    match info {
        Some(s) => Some(s@),
        None => None,
    }
}

/// Whether `c` is white space: the characters that Unicode marks as such.
pub open spec fn is_whitespace(c: char) -> bool {
    let u = c as u32;
    ||| 0x0009 <= u <= 0x000D
    ||| u == 0x0020
    ||| u == 0x0085
    ||| u == 0x00A0
    ||| u == 0x1680
    ||| 0x2000 <= u <= 0x200A
    ||| u == 0x2028
    ||| u == 0x2029
    ||| u == 0x202F
    ||| u == 0x205F
    ||| u == 0x3000
}

/// The words that have ended within the first `n` characters of `text`, and
/// the word that is still going on there. A word is a longest stretch
/// without white space.
pub open spec fn scan_words(text: Seq<char>, n: nat) -> (Seq<Seq<char>>, Seq<char>)
    decreases n,
{
    if n == 0 {
        (Seq::empty(), Seq::empty())
    } else {
        let (done, current) = scan_words(text, (n - 1) as nat);
        let c = text[n - 1];
        if is_whitespace(c) {
            if current.len() > 0 {
                (done.push(current), Seq::empty())
            } else {
                (done, current)
            }
        } else {
            (done, current.push(c))
        }
    }
}

/// The words of `text`: its longest stretches without white space.
pub open spec fn split_words(text: Seq<char>) -> Seq<Seq<char>> {
    let (done, current) = scan_words(text, text.len());
    if current.len() > 0 {
        done.push(current)
    } else {
        done
    }
}

/// The entry for the word at position `k` of a sentence: the word as
/// `formatting` shows it, with the room it takes when shown. Only the first
/// word carries `more_info`.
pub open spec fn word_entry(
    formatting: TextFormatting,
    word: Seq<char>,
    k: int,
    info_class: Seq<char>,
    more_info: Option<Seq<char>>,
) -> (Seq<char>, usize) {
    (
        enriched(
            formatting,
            word,
            info_class,
            if k == 0 {
                more_info
            } else {
                None
            },
        ),
        byte_len(word) as usize,
    )
}

/// The entries for the words of a sentence.
pub open spec fn word_entries(
    formatting: TextFormatting,
    words: Seq<Seq<char>>,
    info_class: Seq<char>,
    more_info: Option<Seq<char>>,
) -> Seq<(Seq<char>, usize)> {
    Seq::new(words.len(), |k: int| word_entry(formatting, words[k], k, info_class, more_info))
}

/// The entries of a list of words with one more word are the entries of the
/// list with the entry of that word.
pub proof fn lemma_word_entries_push(
    formatting: TextFormatting,
    words: Seq<Seq<char>>,
    word: Seq<char>,
    info_class: Seq<char>,
    more_info: Option<Seq<char>>,
)
    ensures
        word_entries(formatting, words.push(word), info_class, more_info) == word_entries(
            formatting,
            words,
            info_class,
            more_info,
        ).push(word_entry(formatting, word, words.len() as int, info_class, more_info)),
{
}

/// The views of a list of words with their lengths.
pub open spec fn entries_view(entries: Seq<(String, usize)>) -> Seq<(Seq<char>, usize)> {
    Seq::new(entries.len(), |i: int| (entries[i].0@, entries[i].1))
}

/// The views of a list of strings.
pub open spec fn lines_view(lines: Seq<String>) -> Seq<Seq<char>> {
    Seq::new(lines.len(), |i: int| lines[i]@)
}

/// Whether `c` is white space.
pub fn char_is_whitespace(c: char) -> (b: bool)
    ensures
        b == is_whitespace(c),
{
    let u = c as u32;
    (0x0009 <= u && u <= 0x000D) || u == 0x0020 || u == 0x0085 || u == 0x00A0 || u == 0x1680 || (
    0x2000 <= u && u <= 0x200A) || u == 0x2028 || u == 0x2029 || u == 0x202F || u == 0x205F || u
        == 0x3000
}

impl TextFormatting {
    /// `plain_string` in a `<span>`. Its attributes carry the information
    /// class and, where there is any, more information.
    pub fn format_html(plain_string: String, info_class: &str, more_info: Option<String>) -> (s:
        String)
        ensures
            s@ == html_text(plain_string@, info_class@, info_view(more_info)),
    {
        let mut s = String::from_str("<span class=\"");
        s.append(info_class);
        s.append("\"");
        match more_info {
            None => {},
            Some(info) => {
                s.append("data-info=\"");
                s.append(info.as_str());
                s.append("\"");
            },
        }
        s.append(">");
        s.append(plain_string.as_str());
        s.append("</span>");
        s
    }

    /// The colour code for an information class.
    pub fn console_color_lookup(info_class: &str) -> (code: &'static str)
        ensures
            code@ == console_color(info_class@),
    {
        if str_eq(info_class, "hp") {
            "\x1b[31m"  // red
        } else if str_eq(info_class, "mp") {
            "\x1b[34m"  // blue
        } else if str_eq(info_class, "ap") {
            "\x1b[32m"  // green
        } else if str_eq(info_class, "PHY") {
            "\x1b[34m"
        } else {
            // an unknown class changes no colour
            ""
        }
    }

    /// `plain_string` in the colour of its information class.
    pub fn format_console(plain_string: String, info_class: &str) -> (s: String)
        ensures
            s@ == console_text(plain_string@, info_class@),
    {
        let mut s = String::from_str(Self::console_color_lookup(info_class));
        s.append(plain_string.as_str());
        s.append("\x1b[0m");
        s
    }

    /// Resolves a formatting to the string that shows `plain_string` in it.
    /// The result may be longer than the plain string, but it takes the same
    /// room when it is shown where it belongs, in a browser, say.
    ///
    /// `info_class` is a short tag known to the system; `more_info` is used
    /// by the HTML formatting alone.
    pub fn enrich_text(&self, plain_string: String, info_class: &str, more_info: Option<String>) -> (s:
        String)
        ensures
            s@ == enriched(*self, plain_string@, info_class@, info_view(more_info)),
    {
        match self {
            // Plain formatting needs nothing.
            TextFormatting::Plain => plain_string,
            // In HTML the string goes into a <span>.
            TextFormatting::Html => TextFormatting::format_html(
                plain_string,
                info_class,
                more_info,
            ),
            // On a console the information class picks the colour.
            TextFormatting::Console => TextFormatting::format_console(plain_string, info_class),
        }
    }

    /// Splits a plain sentence into its words, each as this formatting shows
    /// it and with the room it takes. The information class goes to all
    /// words, `more_info` to the first.
    pub fn to_words(&self, sentence: String, info_class: &str, more_info: Option<String>) -> (words:
        Vec<(String, usize)>)
        ensures
            entries_view(words@) == word_entries(
                *self,
                split_words(sentence@),
                info_class@,
                info_view(more_info),
            ),
    {
        let mut words: Vec<(String, usize)> = Vec::new();
        let mut current = String::new();
        let mut more_info_left = more_info;
        let ghost text = sentence@;
        let ghost info = info_view(more_info);
        for c in it: sentence.as_str().chars()
            invariant
                it.seq() == text,
                info == info_view(more_info),
                current@ == scan_words(text, it.index() as nat).1,
                entries_view(words@) == word_entries(
                    *self,
                    scan_words(text, it.index() as nat).0,
                    info_class@,
                    info,
                ),
                info_view(more_info_left) == if words@.len() == 0 {
                    info
                } else {
                    None
                },
        {
            if char_is_whitespace(c) {
                if !current.as_str().is_empty() {
                    let ghost done = scan_words(text, it.index() as nat).0;
                    let length = string_len(&current);
                    let ghost word = current@;
                    let enriched = self.enrich_text(current, info_class, more_info_left);
                    proof {
                        lemma_word_entries_push(*self, done, word, info_class@, info);
                    }
                    words.push((enriched, length));
                    more_info_left = None;
                    current = String::new();
                }
            } else {
                current.push(c);
            }
        }
        if !current.as_str().is_empty() {
            let ghost done = scan_words(text, text.len()).0;
            let length = string_len(&current);
            let ghost word = current@;
            let enriched = self.enrich_text(current, info_class, more_info_left);
            proof {
                lemma_word_entries_push(*self, done, word, info_class@, info);
            }
            words.push((enriched, length));
        }
        words
    }
}

/// What can show itself in one line of text.
pub trait InfoLine {
    /// The line that shows this in `len` characters.
    spec fn line(&self, len: usize, formatting: TextFormatting) -> Seq<char>;

    /// Builds the key information of this into one line of `len` characters,
    /// as `formatting` shows it.
    fn format_line(&self, len: usize, formatting: TextFormatting) -> (s: String)
        ensures
            s@ == self.line(len, formatting),
    ;
}

/// What can show itself in a block of lines. Such entities can be put into
/// layouts.
pub trait InfoGrid {
    /// The `h` lines of `w` characters that show this.
    spec fn grid(&self, w: usize, h: usize, formatting: TextFormatting) -> Seq<Seq<char>>;

    /// Renders the key information of this into lines of text. Every entity
    /// is expected to make the best of the room it gets.
    fn display(&self, w: usize, h: usize, formatting: TextFormatting) -> (lines: Vec<String>)
        ensures
            lines_view(lines@) == self.grid(w, h, formatting),
    ;
}

/// What tells itself in words, such as an action stack, whose rich
/// information does not fit into bars and numbers. The words are meant to be
/// shown one after the other with one space between them.
pub trait MakesWords {
    /// The words that tell this, each with the room it takes when shown.
    spec fn words(&self, formatting: TextFormatting) -> Seq<(Seq<char>, usize)>;

    /// The words that tell this, each as `formatting` shows it and with the
    /// room it takes when shown.
    fn format_words(&self, formatting: TextFormatting) -> (words: Vec<(String, usize)>)
        ensures
            entries_view(words@) == self.words(formatting),
    ;
}

/// `s` brought to `len` bytes: padded with spaces where it is shorter; cut to
/// its first `len` characters, with two dots behind them, where it is longer.
pub open spec fn fitted(s: Seq<char>, len: nat) -> Seq<char> {
    if byte_len(s) == len {
        s
    } else if len > byte_len(s) {
        s + repeated(' ', (len - byte_len(s)) as nat)
    } else {
        s.take(if len < s.len() {
            len as int
        } else {
            s.len() as int
        }) + ".."@
    }
}

/// A string knows nothing of what it holds, so it is padded or cut to meet
/// the length, whatever the formatting.
impl InfoLine for String {
    open spec fn line(&self, len: usize, formatting: TextFormatting) -> Seq<char> {
        fitted(self@, len as nat)
    }

    fn format_line(&self, len: usize, formatting: TextFormatting) -> (s: String) {
        let size = string_len(self);
        if size == len {
            // The length is met.
            self.clone()
        } else if len > size {
            // The text is too short: pad it with spaces.
            let mut ret = self.clone();
            push_repeated(&mut ret, ' ', len - size);
            ret
        } else {
            // The text is too long: cut it, and show with ".." that not all
            // of it is there.
            let chars = self.as_str().unicode_len();
            let keep = if len < chars {
                len
            } else {
                chars
            };
            let mut cutoff = String::new();
            let mut i: usize = 0;
            while i < keep
                invariant
                    i <= keep <= self@.len(),
                    cutoff@ == self@.take(i as int),
                decreases keep - i,
            {
                cutoff.push(self.as_str().get_char(i));
                i += 1;
            }
            cutoff.append("..");
            cutoff
        }
    }
}

/// Ten to the power of `e`.
pub open spec fn pow10(e: nat) -> nat
    decreases e,
{
    if e == 0 {
        1
    } else {
        10 * pow10((e - 1) as nat)
    }
}

/// `num / den` rounded to the nearest whole number, and to the even one
/// where two are equally near.
pub open spec fn round_half_even(num: nat, den: nat) -> nat {
    let q = num / den;
    let r = num % den;
    if 2 * r > den || (2 * r == den && q % 2 == 1) {
        q + 1
    } else {
        q
    }
}

/// The power of a thousand by which a number of size `m` is divided to
/// shorten it: nine for thousands of millions, six for millions, three for
/// thousands, zero below.
pub open spec fn magnitude_exponent(m: nat) -> nat {
    if m >= 1_000_000_000 {
        9
    } else if m >= 1_000_000 {
        6
    } else if m >= 1000 {
        3
    } else {
        0
    }
}

/// How many decimals of a shortened number of size `m` there is room for in
/// `len` characters: `len` less the room for the point, for the digits in
/// front of it, and for one more character.
pub open spec fn precision_for(m: nat, len: nat) -> nat {
    let unit = pow10(magnitude_exponent(m));
    let taken: nat = if m >= 100 * unit {
        5
    } else if m >= 10 * unit {
        4
    } else {
        3
    };
    if len < taken {
        0
    } else {
        (len - taken) as nat
    }
}

/// The decimals of a number behind its point: the point and the last `digits`
/// digits of `frac`, without zeros at the end; nothing at all where only
/// zeros are left.
pub open spec fn fraction_text(frac: nat, digits: nat) -> Seq<char>
    decreases digits,
{
    if frac == 0 || digits == 0 {
        Seq::empty()
    } else if frac % 10 == 0 {
        fraction_text(frac / 10, (digits - 1) as nat)
    } else {
        seq!['.'] + zero_padded(frac, digits)
    }
}

/// A number of size `m`, divided by its power of a thousand and written with
/// at most `precision` decimals. With no decimals asked for, the number is
/// rounded to a whole one. Otherwise it is rounded to `precision` decimals,
/// and zeros at the end of the decimals are left out, as is the point where
/// no decimal is left.
pub open spec fn shortened_digits(m: nat, precision: nat) -> Seq<char> {
    let e = magnitude_exponent(m);
    let kept = if precision < e {
        precision
    } else {
        e
    };
    let scaled = round_half_even(m, pow10((e - kept) as nat));
    decimal(scaled / pow10(kept)) + fraction_text(scaled % pow10(kept), kept)
}

/// `s`, with spaces behind it where it has less than `len` characters.
pub open spec fn padded_to(s: Seq<char>, len: nat) -> Seq<char> {
    if s.len() < len {
        s + repeated(' ', (len - s.len()) as nat)
    } else {
        s
    }
}

/// A number of size `m` shortened to fill `len` characters.
pub open spec fn shortened_magnitude(m: nat, len: nat) -> Seq<char> {
    padded_to(shortened_digits(m, precision_for(m, len)), len)
}

/// The number `n` shortened to fill `len` characters: `4`, `1.45` for 1450,
/// `23.2` for 23.2 millions. A negative number gets its sign and one
/// character less for the rest.
pub open spec fn shortened(n: int, len: nat) -> Seq<char> {
    if n < 0 {
        seq!['-'] + shortened_magnitude((-n) as nat, if len > 0 {
            (len - 1) as nat
        } else {
            0
        })
    } else {
        shortened_magnitude(n as nat, len)
    }
}

/// Ten to the power of `e`, for powers up to nine.
pub fn power_of_ten(e: usize) -> (p: u64)
    requires
        e <= 9,
    ensures
        p == pow10(e as nat),
{
    let mut p: u64 = 1;
    let mut i: usize = 0;
    proof {
        lemma_pow10_values();
    }
    while i < e
        invariant
            i <= e <= 9,
            p == pow10(i as nat),
            p <= 1_000_000_000,
        decreases e - i,
    {
        proof {
            lemma_pow10_values();
        }
        p = p * 10;
        i += 1;
    }
    p
}

/// The powers of ten up to the ninth.
pub proof fn lemma_pow10_values()
    ensures
        pow10(0) == 1,
        pow10(1) == 10,
        pow10(2) == 100,
        pow10(3) == 1_000,
        pow10(4) == 10_000,
        pow10(5) == 100_000,
        pow10(6) == 1_000_000,
        pow10(7) == 10_000_000,
        pow10(8) == 100_000_000,
        pow10(9) == 1_000_000_000,
{
    reveal_with_fuel(pow10, 11);
}

/// Appends the decimals of a number: see [`fraction_text`].
pub fn push_fraction(s: &mut String, frac: u64, digits: usize)
    ensures
        final(s)@ == old(s)@ + fraction_text(frac as nat, digits as nat),
    decreases digits,
{
    if frac == 0 || digits == 0 {
    } else if frac % 10 == 0 {
        push_fraction(s, frac / 10, digits - 1);
    } else {
        s.push('.');
        push_zero_padded(s, frac, digits);
    }
}

/// The power of a thousand by which a number of size `m` is divided.
pub fn exponent_of(m: u64) -> (e: usize)
    ensures
        e == magnitude_exponent(m as nat),
        e <= 9,
{
    if m >= 1_000_000_000 {
        9
    } else if m >= 1_000_000 {
        6
    } else if m >= 1000 {
        3
    } else {
        0
    }
}

/// How many decimals of a shortened number of size `m` there is room for in
/// `len` characters.
pub fn precision_of(m: u64, len: usize) -> (precision: usize)
    ensures
        precision == precision_for(m as nat, len as nat),
{
    proof {
        lemma_pow10_values();
    }
    let unit = power_of_ten(exponent_of(m));
    // How exact the number can be depends on the digits in front of the
    // point.
    let taken: usize = if m as u128 >= 100 * (unit as u128) {
        5
    } else if m as u128 >= 10 * (unit as u128) {
        4
    } else {
        3
    };
    if len < taken {
        0
    } else {
        len - taken
    }
}

/// `num / den` rounded to the nearest whole number, and to the even one
/// where two are equally near.
pub fn rounded_div(num: u64, den: u64) -> (q: u64)
    requires
        0 < den <= 1_000_000_000,
        num <= 0x8000_0000_0000_0000,
    ensures
        q == round_half_even(num as nat, den as nat),
{
    let q = num / den;
    let r = num % den;
    if 2 * r > den || (2 * r == den && q % 2 == 1) {
        q + 1
    } else {
        q
    }
}

/// Appends a number of size `m`, divided by its power of a thousand and
/// written with at most `precision` decimals.
pub fn push_shortened_digits(s: &mut String, m: u64, precision: usize)
    requires
        m <= 0x8000_0000_0000_0000,
    ensures
        final(s)@ == old(s)@ + shortened_digits(m as nat, precision as nat),
{
    proof {
        lemma_pow10_values();
    }
    let e = exponent_of(m);
    let kept: usize = if precision < e {
        precision
    } else {
        e
    };
    let scaled = rounded_div(m, power_of_ten(e - kept));
    let point = power_of_ten(kept);
    push_decimal(s, scaled / point);
    push_fraction(s, scaled % point, kept);
}

/// Appends a number of size `m` shortened to fill `len` characters.
pub fn push_shortened(s: &mut String, m: u64, len: usize)
    requires
        m <= 0x8000_0000_0000_0000,
    ensures
        final(s)@ == old(s)@ + shortened_magnitude(m as nat, len as nat),
{
    let mut digits = String::new();
    push_shortened_digits(&mut digits, m, precision_of(m, len));
    let shown = digits.as_str().unicode_len();
    s.append(digits.as_str());
    // Where the number comes out shorter, spaces fill the room.
    if shown < len {
        push_repeated(s, ' ', len - shown);
    }
}

/// A number shows itself shortened: `4`, `1.45`, `23.2`. The formatting
/// makes no difference to it.
impl InfoLine for i64 {
    open spec fn line(&self, len: usize, formatting: TextFormatting) -> Seq<char> {
        shortened(*self as int, len as nat)
    }

    fn format_line(&self, len: usize, formatting: TextFormatting) -> (s: String) {
        let mut result = String::new();
        if *self < 0 {
            result.push('-');
            let rest = if len > 0 {
                len - 1
            } else {
                0
            };
            push_shortened(&mut result, magnitude(*self), rest);
        } else {
            push_shortened(&mut result, magnitude(*self), len);
        }
        assert(self.line(len, formatting) == shortened(*self as int, len as nat));
        result
    }
}

/// A line of words, each with the room it takes when shown.
pub type WordLine = Seq<(Seq<char>, usize)>;

/// The room that the words of a list take together, without the spaces
/// between them.
pub open spec fn words_total(line: WordLine) -> nat
    decreases line.len(),
{
    if line.len() == 0 {
        0
    } else {
        words_total(line.drop_last()) + line.last().1 as nat
    }
}

/// The room that a line of words takes: the words and one space between
/// every two of them.
pub open spec fn line_width(line: WordLine) -> nat {
    if line.len() == 0 {
        0
    } else {
        (words_total(line) + line.len() - 1) as nat
    }
}

/// A line that is full: where it is narrower than `w`, its last word gets the
/// spaces that are missing, and the room that they take.
pub open spec fn closed_line(line: WordLine, w: nat) -> WordLine {
    if line.len() > 0 && line_width(line) < w {
        let gap = (w - line_width(line)) as nat;
        line.update(
            line.len() - 1,
            (line.last().0 + repeated(' ', gap), (line.last().1 + gap) as usize),
        )
    } else {
        line
    }
}

/// The lines that are full and the line that is still open, after one more
/// word. The word joins the open line where it fits with a space in front of
/// it; otherwise the open line is closed and the word starts a new one.
pub open spec fn place_word(lines: (Seq<WordLine>, WordLine), word: (Seq<char>, usize), w: nat) -> (
    Seq<WordLine>,
    WordLine,
) {
    let (full, open) = lines;
    if open.len() == 0 {
        (full, seq![word])
    } else if line_width(open) + word.1 + 1 > w {
        (full.push(closed_line(open, w)), seq![word])
    } else {
        (full, open.push(word))
    }
}

/// The lines after the first `n` words have been placed.
pub open spec fn wrapped_upto(words: WordLine, w: nat, n: nat) -> (Seq<WordLine>, WordLine)
    decreases n,
{
    if n == 0 {
        (Seq::empty(), Seq::empty())
    } else {
        place_word(wrapped_upto(words, w, (n - 1) as nat), words[n - 1], w)
    }
}

/// The words of a line with one space between every two of them.
pub open spec fn joined(line: WordLine) -> Seq<char>
    decreases line.len(),
{
    if line.len() == 0 {
        Seq::empty()
    } else if line.len() == 1 {
        line[0].0
    } else {
        joined(line.drop_last()) + seq![' '] + line.last().0
    }
}

/// The text of every line: its words joined, and behind the last line the
/// spaces that it lacks to be `w` wide.
pub open spec fn expanded(lines: (Seq<WordLine>, WordLine), w: nat) -> Seq<Seq<char>> {
    let (full, open) = lines;
    Seq::new(
        full.len() + 1,
        |i: int|
            if i < full.len() {
                joined(full[i])
            } else if line_width(open) < w {
                joined(open) + repeated(' ', (w - line_width(open)) as nat)
            } else {
                joined(open)
            },
    )
}

/// `words` wrapped into lines of `w` characters.
pub open spec fn wrapped_text(words: WordLine, w: nat) -> Seq<Seq<char>> {
    expanded(wrapped_upto(words, w, words.len()), w)
}

/// At most the first `h` of `lines`.
pub open spec fn first_lines(lines: Seq<Seq<char>>, h: nat) -> Seq<Seq<char>> {
    if lines.len() > h {
        lines.take(h as int)
    } else {
        lines
    }
}

/// `n` lines of `w` spaces.
pub open spec fn blank_lines(n: nat, w: nat) -> Seq<Seq<char>> {
    Seq::new(n, |i: int| repeated(' ', w))
}

/// `lines`, with lines of `w` spaces behind them where they are fewer than
/// `h`.
pub open spec fn filled_lines(lines: Seq<Seq<char>>, w: nat, h: nat) -> Seq<Seq<char>> {
    if lines.len() < h {
        lines + blank_lines((h - lines.len()) as nat, w)
    } else {
        lines
    }
}

/// The room of a word is part of the room of its line.
pub proof fn lemma_word_within_line(line: WordLine, i: int)
    requires
        0 <= i < line.len(),
    ensures
        line[i].1 <= words_total(line),
        words_total(line) <= line_width(line) + 1,
    decreases line.len(),
{
    if i < line.len() - 1 {
        lemma_word_within_line(line.drop_last(), i);
    }
}

/// A list of words, held together with the room they take in all.
pub struct MeasuredLine {
    /// The words of the line
    pub words: Vec<(String, usize)>,
    /// The room that the words take together, without the spaces
    pub total: u128,
}

impl MeasuredLine {
    /// The total is that of the words.
    pub open spec fn wf(self) -> bool {
        &&& self.total == words_total(entries_view(self.words@))
        &&& self.total <= self.words@.len() * 0xffff_ffff_ffff_ffff
    }
}

/// The views of a list of lines of words.
pub open spec fn word_lines_view(lines: Seq<Vec<(String, usize)>>) -> Seq<WordLine> {
    Seq::new(lines.len(), |i: int| entries_view(lines[i]@))
}

/// Places one more word: see [`place_word`].
pub fn fold_word_line_break(
    full: &mut Vec<Vec<(String, usize)>>,
    open: &mut MeasuredLine,
    word: (String, usize),
    w: usize,
)
    requires
        old(open).wf(),
    ensures
        final(open).wf(),
        (word_lines_view(final(full)@), entries_view(final(open).words@)) == place_word(
            (word_lines_view(old(full)@), entries_view(old(open).words@)),
            (word.0@, word.1),
            w as nat,
        ),
{
    let ghost line = entries_view(open.words@);
    let ghost entry = (word.0@, word.1);
    proof {
        assert(seq![entry].drop_last() =~= Seq::<(Seq<char>, usize)>::empty());
        assert(words_total(Seq::<(Seq<char>, usize)>::empty()) == 0);
    }
    if open.words.len() == 0 {
        open.total = word.1 as u128;
        open.words.push(word);
        assert(entries_view(open.words@) =~= seq![entry]);
        return ;
    }
    // The room that the line takes: its words and the spaces between them.
    let current_charlen: u128 = open.total + (open.words.len() as u128) - 1;
    if current_charlen >= w as u128 || (w as u128 - current_charlen) < word.1 as u128 + 1 {
        // The line is full. Where it lacks spaces to be as wide as it should
        // be, its last word gets them.
        if current_charlen < w as u128 {
            let gap: usize = (w as u128 - current_charlen) as usize;
            proof {
                lemma_word_within_line(line, line.len() - 1);
            }
            match open.words.pop() {
                Some(last) => {
                    let (text, l) = last;
                    let mut text = text;
                    push_repeated(&mut text, ' ', gap);
                    open.words.push((text, l + gap));
                },
                None => {},
            }
            assert(entries_view(open.words@) =~= closed_line(line, w as nat));
        }
        let mut closed: Vec<(String, usize)> = Vec::new();
        std::mem::swap(&mut closed, &mut open.words);
        full.push(closed);
        open.total = word.1 as u128;
        open.words.push(word);
        assert(entries_view(open.words@) =~= seq![entry]);
    } else {
        // There is room enough: the word joins the line.
        open.total = open.total + word.1 as u128;
        open.words.push(word);
        assert(entries_view(open.words@) =~= line.push(entry));
        assert(line.push(entry).drop_last() =~= line);
    }
}

/// Appends the words of a line with one space between every two of them.
pub fn push_joined(s: &mut String, line: &Vec<(String, usize)>)
    ensures
        final(s)@ == old(s)@ + joined(entries_view(line@)),
{
    let mut i: usize = 0;
    let ghost words = entries_view(line@);
    while i < line.len()
        invariant
            i <= line.len(),
            words == entries_view(line@),
            s@ == old(s)@ + joined(words.take(i as int)),
        decreases line.len() - i,
    {
        proof {
            assert(words.take(i + 1).drop_last() =~= words.take(i as int));
        }
        if i > 0 {
            s.push(' ');
        }
        s.append(line[i].0.as_str());
        i += 1;
    }
    assert(words.take(line.len() as int) =~= words);
}

/// Turns lines of words into lines of text: see [`expanded`].
pub fn expand_wordlists(full: &Vec<Vec<(String, usize)>>, open: &MeasuredLine, w: usize) -> (out:
    Vec<String>)
    requires
        open.wf(),
    ensures
        lines_view(out@) == expanded(
            (word_lines_view(full@), entries_view(open.words@)),
            w as nat,
        ),
{
    let ghost goal = expanded((word_lines_view(full@), entries_view(open.words@)), w as nat);
    let mut out: Vec<String> = Vec::new();
    let mut i: usize = 0;
    while i < full.len()
        invariant
            i <= full.len(),
            goal == expanded((word_lines_view(full@), entries_view(open.words@)), w as nat),
            out.len() == i,
            forall|k: int| 0 <= k < i ==> (#[trigger] out@[k])@ == goal[k],
        decreases full.len() - i,
    {
        let mut text = String::new();
        push_joined(&mut text, &full[i]);
        out.push(text);
        i += 1;
    }
    // The last line gets the spaces that it lacks.
    let mut last = String::new();
    push_joined(&mut last, &open.words);
    let last_line_length: u128 = if open.words.len() == 0 {
        0
    } else {
        open.total + open.words.len() as u128 - 1
    };
    if last_line_length < w as u128 {
        push_repeated(&mut last, ' ', (w as u128 - last_line_length) as usize);
    }
    out.push(last);
    out
}

/// Drops what is beyond the first `h` lines.
pub fn truncate_outlist(out_lines: &mut Vec<String>, h: usize)
    ensures
        lines_view(final(out_lines)@) == first_lines(lines_view(old(out_lines)@), h as nat),
{
    if out_lines.len() > h {
        out_lines.truncate(h);
    }
}

/// Wraps `words` into lines of `w` characters: see [`wrapped_text`].
pub fn wrap_words(words: &Vec<(String, usize)>, w: usize) -> (lines: Vec<String>)
    ensures
        lines_view(lines@) == wrapped_text(entries_view(words@), w as nat),
{
    let mut full: Vec<Vec<(String, usize)>> = Vec::new();
    let mut open = MeasuredLine { words: Vec::new(), total: 0 };
    let ghost all = entries_view(words@);
    let mut i: usize = 0;
    while i < words.len()
        invariant
            i <= words.len(),
            all == entries_view(words@),
            open.wf(),
            (word_lines_view(full@), entries_view(open.words@)) == wrapped_upto(
                all,
                w as nat,
                i as nat,
            ),
        decreases words.len() - i,
    {
        let word = (words[i].0.clone(), words[i].1);
        fold_word_line_break(&mut full, &mut open, word, w);
        i += 1;
    }
    expand_wordlists(&full, &open, w)
}

/// Words that have their formatting already are wrapped into lines as they
/// are, whatever formatting is asked for. Missing lines are made up with
/// spaces.
impl InfoGrid for Vec<(String, usize)> {
    open spec fn grid(&self, w: usize, h: usize, formatting: TextFormatting) -> Seq<Seq<char>> {
        filled_lines(
            first_lines(wrapped_text(entries_view(self@), w as nat), h as nat),
            w as nat,
            h as nat,
        )
    }

    fn display(&self, w: usize, h: usize, formatting: TextFormatting) -> (lines: Vec<String>) {
        let mut out_lines = wrap_words(self, w);
        // Cut what is too long.
        truncate_outlist(&mut out_lines, h);
        // Fill up what is too short.
        let ghost shown = lines_view(out_lines@);
        if out_lines.len() < h {
            let missing = h - out_lines.len();
            let mut i: usize = 0;
            while i < missing
                invariant
                    i <= missing,
                    missing == h - shown.len(),
                    lines_view(out_lines@) == shown + blank_lines(i as nat, w as nat),
                decreases missing - i,
            {
                let mut blank = String::new();
                push_repeated(&mut blank, ' ', w);
                let ghost before = lines_view(out_lines@);
                out_lines.push(blank);
                assert(before.push(repeated(' ', w as nat)) =~= shown + blank_lines(
                    (i + 1) as nat,
                    w as nat,
                ));
                i += 1;
            }
        }
        out_lines
    }
}

/// Whatever makes words can show itself in lines: its words are wrapped
/// around the lines as need be.
impl<T: MakesWords> InfoGrid for T {
    open spec fn grid(&self, w: usize, h: usize, formatting: TextFormatting) -> Seq<Seq<char>> {
        first_lines(wrapped_text(self.words(formatting), w as nat), h as nat)
    }

    fn display(&self, w: usize, h: usize, formatting: TextFormatting) -> (lines: Vec<String>) {
        let words = self.format_words(formatting);
        let mut out_lines = wrap_words(&words, w);
        truncate_outlist(&mut out_lines, h);
        out_lines
    }
}

/// The entry for a plain word with its information class and its further
/// information: the word as `formatting` shows it, with the room it takes.
pub open spec fn plain_entry(word: (String, &str, Option<String>), formatting: TextFormatting) -> (
    Seq<char>,
    usize,
) {
    (enriched(formatting, word.0@, word.1@, info_view(word.2)), byte_len(word.0@) as usize)
}

/// Plain words with their information classes tell themselves as they are:
/// each word is enriched on its own.
impl<'a> MakesWords for Vec<(String, &'a str, Option<String>)> {
    open spec fn words(&self, formatting: TextFormatting) -> Seq<(Seq<char>, usize)> {
        Seq::new(self@.len(), |i: int| plain_entry(self@[i], formatting))
    }

    fn format_words(&self, formatting: TextFormatting) -> (words: Vec<(String, usize)>) {
        let mut words: Vec<(String, usize)> = Vec::new();
        let mut i: usize = 0;
        while i < self.len()
            invariant
                i <= self.len(),
                words.len() == i,
                forall|k: int|
                    0 <= k < i ==> ((#[trigger] words@[k]).0@, words@[k].1) == plain_entry(
                        self@[k],
                        formatting,
                    ),
            decreases self.len() - i,
        {
            let w = self[i].0.clone();
            let len = string_len(&w);
            let add_info = match &self[i].2 {
                Some(info) => Some(info.clone()),
                None => None,
            };
            words.push((formatting.enrich_text(w, self[i].1, add_info), len));
            i += 1;
        }
        words
    }
}

/// The styles of bars that show a share of a whole.
#[derive(Clone, Copy, Debug, PartialEq, Eq, Structural)]
pub enum BarStyle {
    /// Good for little room, this style shows the share twice as fine in two
    /// layers of one line:
    ///
    /// `::::::...`
    /// `:::......`
    /// `...      `
    DoubleLines,
    /// One character for what is there and one for what is missing, as in
    /// `++++++++-----` or `>>>>---------`
    TwoChars(char, char),
    /// One character for what is there, and spaces for what is missing
    SingleChar(char),
}

/// The nearest count to `x`: zero below zero, the largest count above it.
pub open spec fn clamp_usize(x: int) -> nat {
    if x < 0 {
        0
    } else if x > usize::MAX {
        usize::MAX as nat
    } else {
        x as nat
    }
}

/// The share `value / max` with a positive denominator. A bar without a
/// maximum has nothing of it.
pub open spec fn bar_ratio(value: int, max: int) -> (int, int) {
    if max > 0 {
        (value, max)
    } else if max < 0 {
        (-value, -max)
    } else {
        (0, 1)
    }
}

/// What is left of `out_len` characters after `taken` of them.
pub open spec fn rest_of(out_len: nat, taken: nat) -> nat {
    if taken > out_len {
        0
    } else {
        (out_len - taken) as nat
    }
}

/// How many characters of a bar of `out_len` stand for the share
/// `num / den`: the share of the length, rounded down.
pub open spec fn filled(num: int, den: int, out_len: nat) -> nat {
    clamp_usize((num * out_len) / den)
}

/// The bar that shows `value` of `max` in `out_len` characters.
///
/// Two characters and one character: the share of the length is filled, the
/// rest is the other character or blank. Double lines: a share of a half and
/// more shows what is beyond the half with `:` on a ground of `.`; a share
/// below shows twice the share with `.` on a blank ground. A bar that is
/// filled beyond its length has no rest.
pub open spec fn bar_text(style: BarStyle, out_len: nat, value: int, max: int) -> Seq<char> {
    let (v, m) = bar_ratio(value, max);
    match style {
        BarStyle::DoubleLines => if 2 * v >= m {
            let a = clamp_usize((2 * v * out_len) / m - out_len);
            repeated(':', a) + repeated('.', rest_of(out_len, a))
        } else {
            let a = filled(2 * v, m, out_len);
            repeated('.', a) + repeated(' ', rest_of(out_len, a))
        },
        BarStyle::TwoChars(x, y) => {
            let a = filled(v, m, out_len);
            repeated(x, a) + repeated(y, rest_of(out_len, a))
        },
        BarStyle::SingleChar(c) => {
            let a = filled(v, m, out_len);
            repeated(c, a) + repeated(' ', rest_of(out_len, a))
        },
    }
}

/// `num * out_len / den`, rounded down, for a share that is not negative.
pub fn share_of(num: u128, den: u128, out_len: usize) -> (q: u128)
    requires
        num <= 0x1_0000_0000_0000_0000,
        0 < den,
    ensures
        q == (num * out_len) / (den as int),
{
    proof {
        vstd::arithmetic::mul::lemma_mul_upper_bound(
            num as int,
            0x1_0000_0000_0000_0000,
            out_len as int,
            0xffff_ffff_ffff_ffff,
        );
        vstd::arithmetic::mul::lemma_mul_nonnegative(num as int, out_len as int);
    }
    (num * (out_len as u128)) / den
}

/// The nearest count to `x`.
pub fn to_count(x: u128) -> (n: usize)
    ensures
        n == clamp_usize(x as int),
{
    if x > usize::MAX as u128 {
        usize::MAX
    } else {
        x as usize
    }
}

/// What is left of `out_len` characters after `taken` of them.
pub fn rest(out_len: usize, taken: usize) -> (n: usize)
    ensures
        n == rest_of(out_len as nat, taken as nat),
{
    if taken > out_len {
        0
    } else {
        out_len - taken
    }
}

/// How many characters of a bar of `out_len` stand for the share
/// `num / den`.
pub fn filled_of(num: i128, den: i128, out_len: usize) -> (n: usize)
    requires
        -0x1_0000_0000_0000_0000 <= num <= 0x1_0000_0000_0000_0000,
        0 < den,
    ensures
        n == filled(num as int, den as int, out_len as nat),
{
    if num <= 0 {
        proof {
            // A share that is not positive fills nothing.
            vstd::arithmetic::mul::lemma_mul_inequality(num as int, 0, out_len as int);
            vstd::arithmetic::div_mod::lemma_div_is_ordered(num * out_len, 0, den as int);
        }
        0
    } else {
        to_count(share_of(num as u128, den as u128, out_len))
    }
}

impl BarStyle {
    /// Renders the bar for `bar_value` of `bar_max` in `out_len` characters.
    pub fn render_bar(&self, out_len: usize, bar_value: i64, bar_max: i64) -> (out: String)
        ensures
            out@ == bar_text(*self, out_len as nat, bar_value as int, bar_max as int),
    {
        let mut out = String::new();
        // The share with a positive denominator
        let (v, m): (i128, i128) = if bar_max > 0 {
            (bar_value as i128, bar_max as i128)
        } else if bar_max < 0 {
            (-(bar_value as i128), -(bar_max as i128))
        } else {
            (0, 1)
        };
        match self {
            BarStyle::DoubleLines => {
                // A share of a half and more goes to the second layer.
                if 2 * v >= m {
                    let doubled = share_of((2 * v) as u128, m as u128, out_len);
                    proof {
                        // Twice the share is at least a whole, so the
                        // doubled count is at least the length.
                        vstd::arithmetic::mul::lemma_mul_inequality(
                            m as int,
                            2 * v,
                            out_len as int,
                        );
                        vstd::arithmetic::div_mod::lemma_div_is_ordered(
                            m * out_len,
                            2 * v * out_len,
                            m as int,
                        );
                        vstd::arithmetic::div_mod::lemma_div_multiples_vanish(
                            out_len as int,
                            m as int,
                        );
                    }
                    let num_a = to_count(doubled - out_len as u128);
                    let num_b = rest(out_len, num_a);
                    push_repeated(&mut out, ':', num_a);
                    push_repeated(&mut out, '.', num_b);
                } else {
                    let num_a = filled_of(2 * v, m, out_len);
                    let num_b = rest(out_len, num_a);
                    push_repeated(&mut out, '.', num_a);
                    push_repeated(&mut out, ' ', num_b);
                }
            },
            BarStyle::TwoChars(a, b) => {
                // The share of the length is 'on', the rest is 'off'.
                let num_a = filled_of(v, m, out_len);
                let num_b = rest(out_len, num_a);
                push_repeated(&mut out, *a, num_a);
                push_repeated(&mut out, *b, num_b);
            },
            BarStyle::SingleChar(c) => {
                let num_a = filled_of(v, m, out_len);
                let num_b = rest(out_len, num_a);
                push_repeated(&mut out, *c, num_a);
                push_repeated(&mut out, ' ', num_b);
            },
        }
        out
    }
}

/// The joints of a frame.
#[derive(Clone, Copy, Debug, PartialEq, Eq, Structural)]
pub enum JointType {
    TUp,
    TDown,
    TLeft,
    TRight,
    Cross,
}

/// The strokes of a frame.
#[derive(Clone, Copy, Debug, PartialEq, Eq, Structural)]
pub enum FrameType {
    Single,
    Double,
}

impl FrameType {
    /// The joint of this stroke.
    pub open spec fn joint_char(self, j: JointType) -> char {
        match self {
            FrameType::Single => match j {
                JointType::TUp => '┴',
                JointType::TDown => '┬',
                JointType::TLeft => '┤',
                JointType::TRight => '├',
                JointType::Cross => '┼',
            },
            FrameType::Double => match j {
                JointType::TUp => '╩',
                JointType::TDown => '╦',
                JointType::TLeft => '╣',
                JointType::TRight => '╠',
                JointType::Cross => '╬',
            },
        }
    }

    /// The corner of this stroke at the top or the bottom, on the left or
    /// the right.
    pub open spec fn corner(self, top: bool, left: bool) -> char {
        match self {
            FrameType::Single => if top {
                if left {
                    '┌'
                } else {
                    '┐'
                }
            } else {
                if left {
                    '└'
                } else {
                    '┘'
                }
            },
            FrameType::Double => if top {
                if left {
                    '╔'
                } else {
                    '╗'
                }
            } else {
                if left {
                    '╚'
                } else {
                    '╝'
                }
            },
        }
    }

    /// The horizontal piece of this stroke.
    pub open spec fn hor_char(self) -> char {
        match self {
            FrameType::Single => '─',
            FrameType::Double => '━',
        }
    }

    /// The vertical piece of this stroke.
    pub open spec fn ver_char(self) -> char {
        match self {
            FrameType::Single => '│',
            FrameType::Double => '┃',
        }
    }

    /// The horizontal piece
    pub fn hor(&self) -> (c: char)
        ensures
            c == self.hor_char(),
    {
        match self {
            FrameType::Single => '─',
            FrameType::Double => '━',
        }
    }

    /// The vertical piece
    pub fn ver(&self) -> (c: char)
        ensures
            c == self.ver_char(),
    {
        match self {
            FrameType::Single => '│',
            FrameType::Double => '┃',
        }
    }

    /// The upper left corner
    pub fn top_left(&self) -> (c: char)
        ensures
            c == self.corner(true, true),
    {
        match self {
            FrameType::Single => '┌',
            FrameType::Double => '╔',
        }
    }

    /// The upper right corner
    pub fn top_right(&self) -> (c: char)
        ensures
            c == self.corner(true, false),
    {
        match self {
            FrameType::Single => '┐',
            FrameType::Double => '╗',
        }
    }

    /// The lower left corner
    pub fn bottom_left(&self) -> (c: char)
        ensures
            c == self.corner(false, true),
    {
        match self {
            FrameType::Single => '└',
            FrameType::Double => '╚',
        }
    }

    /// The lower right corner
    pub fn bottom_right(&self) -> (c: char)
        ensures
            c == self.corner(false, false),
    {
        match self {
            FrameType::Single => '┘',
            FrameType::Double => '╝',
        }
    }

    /// The joint `j`
    pub fn joint(&self, j: JointType) -> (c: char)
        ensures
            c == self.joint_char(j),
    {
        match self {
            FrameType::Single => {
                match j {
                    JointType::TUp => '┴',
                    JointType::TDown => '┬',
                    JointType::TLeft => '┤',
                    JointType::TRight => '├',
                    JointType::Cross => '┼',
                }
            },
            FrameType::Double => {
                match j {
                    JointType::TUp => '╩',
                    JointType::TDown => '╦',
                    JointType::TLeft => '╣',
                    JointType::TRight => '╠',
                    JointType::Cross => '╬',
                }
            },
        }
    }
}

} // verus!
