//! Settings files: lines of the form `key = value`, with comments and section
//! headings in between.

use crate::chain::str_equal;
use crate::maker::rpc::cookie::{
    digit_text, hex_digit, trim, trim_end, trim_start, trimmed, white_space,
};
use vstd::prelude::*;
use vstd::string::{StrSliceExecFns, StringExecFns};

verus! {

/// The first position from `from` on where `text` has the character `c`; its
/// length where there is none.
pub open spec fn position(text: Seq<char>, c: char, from: int) -> int
    decreases text.len() - from,
{
    if from >= text.len() {
        text.len() as int
    } else if text[from] == c {
        from
    } else {
        position(text, c, from + 1)
    }
}

/// What a position says.
pub proof fn lemma_position(text: Seq<char>, c: char, from: int)
    requires
        0 <= from <= text.len(),
    ensures
        from <= position(text, c, from) <= text.len(),
        forall|i: int| from <= i < position(text, c, from) ==> text[i] != c,
        position(text, c, from) < text.len() ==> text[position(text, c, from)] == c,
    decreases text.len() - from,
{
    if from < text.len() && text[from] != c {
        lemma_position(text, c, from + 1);
    }
}

/// The first place of a character is its position.
proof fn lemma_is_position(text: Seq<char>, c: char, from: int, at: int)
    requires
        0 <= from <= at < text.len(),
        text[at] == c,
        forall|i: int| from <= i < at ==> text[i] != c,
    ensures
        position(text, c, from) == at,
    decreases at - from,
{
    if from < at {
        lemma_is_position(text, c, from + 1, at);
    }
}

/// The first position from `from` on where `text` has the character `c`.
fn find(text: &str, c: char, from: usize) -> (r: usize)
    requires
        from <= text@.len(),
    ensures
        r == position(text@, c, from as int),
        from <= r <= text@.len(),
{
    let n = text.unicode_len();
    let mut i: usize = from;
    while i < n && text.get_char(i) != c
        invariant
            n == text@.len(),
            from <= i <= n,
            position(text@, c, from as int) == position(text@, c, i as int),
        decreases n - i,
    {
        i += 1;
    }
    i
}

/// The setting that a line makes: none where it is empty, a comment, a section
/// heading, or without an equals sign.
pub open spec fn setting_of(line: Seq<char>) -> Option<(Seq<char>, Seq<char>)> {
    let text = trimmed(line);
    let at = position(text, '=', 0);
    if text.len() == 0 || text[0] == '#' || text[0] == '[' || at >= text.len() {
        None
    } else {
        Some((trimmed(text.subrange(0, at)), trimmed(text.subrange(at + 1, text.len() as int))))
    }
}

/// What follows the first line of a text.
pub open spec fn after_line(text: Seq<char>) -> Seq<char> {
    let end = position(text, '\n', 0);
    if end >= text.len() {
        seq![]
    } else {
        text.subrange(end + 1, text.len() as int)
    }
}

/// The settings of a text, in order.
pub open spec fn settings(text: Seq<char>) -> Seq<(Seq<char>, Seq<char>)>
    decreases text.len(),
{
    if text.len() == 0 {
        seq![]
    } else {
        proof {
            lemma_position(text, '\n', 0);
        }
        let rest = settings(after_line(text));
        match setting_of(text.subrange(0, position(text, '\n', 0))) {
            None => rest,
            Some(setting) => seq![setting] + rest,
        }
    }
}

/// What a list of settings holds.
pub open spec fn setting_models(fields: Seq<(String, String)>) -> Seq<(Seq<char>, Seq<char>)> {
    fields.map_values(|field: (String, String)| (field.0@, field.1@))
}

/// The value of a key: that of the last setting with the key.
pub open spec fn value_of(fields: Seq<(Seq<char>, Seq<char>)>, key: Seq<char>) -> Option<Seq<char>>
    decreases fields.len(),
{
    if fields.len() == 0 {
        None
    } else if fields.last().0 == key {
        Some(fields.last().1)
    } else {
        value_of(fields.drop_last(), key)
    }
}

/// The setting that a line makes.
fn parse_setting(line: &str) -> (r: Option<(String, String)>)
    ensures
        match (r, setting_of(line@)) {
            (Some((key, value)), Some((k, v))) => key@ == k && value@ == v,
            (None, None) => true,
            _ => false,
        },
{
    let text = trim(line);
    let n = text.unicode_len();
    if n == 0 {
        return None;
    }
    let first = text.get_char(0);
    if first == '#' || first == '[' {
        return None;
    }
    let at = find(text, '=', 0);
    if at >= n {
        return None;
    }
    let key = trim(text.substring_char(0, at));
    let value = trim(text.substring_char(at + 1, n));
    Some((key.to_owned(), value.to_owned()))
}

/// Reads the settings of a text.
pub fn parse_settings(text: &str) -> (r: Vec<(String, String)>)
    ensures
        setting_models(r@) == settings(text@),
{
    let n = text.unicode_len();
    let mut fields: Vec<(String, String)> = Vec::new();
    let mut from: usize = 0;
    assert(text@.subrange(0, n as int) =~= text@);
    assert(setting_models(fields@) + settings(text@) =~= settings(text@));
    while from < n
        invariant
            n == text@.len(),
            from <= n,
            setting_models(fields@) + settings(text@.subrange(from as int, n as int)) == settings(
                text@,
            ),
        decreases n - from,
    {
        let end = find(text, '\n', from);
        let ghost rest = text@.subrange(from as int, n as int);
        let ghost before = setting_models(fields@);
        proof {
            lemma_position(text@, '\n', from as int);
            lemma_position(rest, '\n', 0);
            if end < n {
                lemma_is_position(rest, '\n', 0, end - from);
                assert(after_line(rest) =~= text@.subrange(end + 1, n as int));
            } else {
                if position(rest, '\n', 0) < rest.len() {
                    let at = position(rest, '\n', 0);
                    assert(text@[from + at] == '\n');
                }
                assert(after_line(rest) =~= text@.subrange(n as int, n as int));
            }
            assert(rest.subrange(0, end - from) =~= text@.subrange(from as int, end as int));
        }
        let parsed = parse_setting(text.substring_char(from, end));
        let ghost tail = settings(after_line(rest));
        match parsed {
            None => {},
            Some((key, value)) => {
                fields.push((key, value));
                proof {
                    assert(setting_models(fields@) =~= before.push((key@, value@)));
                    assert(before + (seq![(key@, value@)] + tail) =~= setting_models(fields@)
                        + tail);
                }
            },
        }
        from = if end < n {
            end + 1
        } else {
            n
        };
    }
    assert(text@.subrange(from as int, n as int) =~= seq![]);
    assert(setting_models(fields@) + settings(seq![]) =~= setting_models(fields@));
    fields
}

/// The value of a key.
pub fn lookup<'a>(fields: &'a Vec<(String, String)>, key: &str) -> (r: Option<&'a String>)
    ensures
        match (r, value_of(setting_models(fields@), key@)) {
            (Some(value), Some(v)) => value@ == v,
            (None, None) => true,
            _ => false,
        },
{
    let ghost all = setting_models(fields@);
    let mut i: usize = fields.len();
    assert(all.take(i as int) =~= all);
    while i > 0
        invariant
            i <= fields.len(),
            all == setting_models(fields@),
            value_of(all, key@) == value_of(all.take(i as int), key@),
        decreases i,
    {
        let ghost now = all.take(i as int);
        assert(now.drop_last() =~= all.take(i - 1));
        assert(now.last() == (fields@[i - 1].0@, fields@[i - 1].1@));
        i -= 1;
        if str_equal(fields[i].0.as_str(), key) {
            return Some(&fields[i].1);
        }
    }
    None
}

/// Whether a text is made of decimal digits.
pub open spec fn all_digits(text: Seq<char>) -> bool {
    forall|i: int| 0 <= i < text.len() ==> '0' <= #[trigger] text[i] <= '9'
}

/// The number that decimal digits stand for.
pub open spec fn digits_value(text: Seq<char>) -> int
    decreases text.len(),
{
    if text.len() == 0 {
        0
    } else {
        10 * digits_value(text.drop_last()) + (text.last() as int - '0' as int)
    }
}

/// The digits of a number that may have a plus sign before it.
pub open spec fn unsigned(text: Seq<char>) -> Seq<char> {
    if text.len() > 0 && text[0] == '+' {
        text.drop_first()
    } else {
        text
    }
}

/// The number that a text stands for, where it is one up to `max`.
pub open spec fn number_of(text: Seq<char>, max: int) -> Option<int> {
    let digits = unsigned(text);
    if digits.len() > 0 && all_digits(digits) && digits_value(digits) <= max {
        Some(digits_value(digits))
    } else {
        None
    }
}

/// More digits make no smaller number.
proof fn lemma_digits_grow(text: Seq<char>, n: int)
    requires
        0 <= n <= text.len(),
        all_digits(text),
    ensures
        0 <= digits_value(text.take(n)) <= digits_value(text),
    decreases text.len(),
{
    if n < text.len() {
        let shorter = text.drop_last();
        assert(all_digits(shorter));
        lemma_digits_grow(shorter, n);
        assert(shorter.take(n) =~= text.take(n));
        assert('0' <= text[text.len() - 1] <= '9');
    } else {
        assert(text.take(n) =~= text);
        if n > 0 {
            let shorter = text.drop_last();
            assert(all_digits(shorter));
            lemma_digits_grow(shorter, n - 1);
            assert(shorter.take(n - 1) =~= shorter);
            assert('0' <= text[text.len() - 1] <= '9');
        }
    }
}

/// The number that a text stands for, where it is one up to `max`.
pub fn parse_number(text: &str, max: u64) -> (r: Option<u64>)
    ensures
        match (r, number_of(text@, max as int)) {
            (Some(n), Some(m)) => n == m,
            (None, None) => true,
            _ => false,
        },
{
    let n = text.unicode_len();
    let start: usize = if n > 0 && text.get_char(0) == '+' {
        1
    } else {
        0
    };
    let ghost digits = unsigned(text@);
    assert(digits =~= text@.subrange(start as int, n as int));
    if start >= n {
        return None;
    }
    let mut value: u128 = 0;
    let mut i: usize = start;
    assert(digits.take(0) =~= seq![]);
    while i < n
        invariant
            n == text@.len(),
            start <= i <= n,
            start < n,
            digits == unsigned(text@),
            digits == text@.subrange(start as int, n as int),
            forall|k: int| 0 <= k < i - start ==> '0' <= #[trigger] digits[k] <= '9',
            value == digits_value(digits.take(i - start)),
            value <= max,
        decreases n - i,
    {
        let c = text.get_char(i);
        assert(digits[i - start] == c);
        if c < '0' || c > '9' {
            assert(!all_digits(digits));
            return None;
        }
        let digit: u128 = (c as u32 - '0' as u32) as u128;
        let ghost shown = digits.take(i - start);
        let ghost next = digits.take(i - start + 1);
        assert(next.drop_last() =~= shown);
        assert(next.last() == c);
        value = 10 * value + digit;
        if value > max as u128 {
            proof {
                if all_digits(digits) {
                    lemma_digits_grow(digits, i - start + 1);
                }
            }
            return None;
        }
        i += 1;
    }
    assert(digits.take(i - start) =~= digits);
    Some(value as u64)
}

/// The number of a key, where there is one up to `max`.
pub open spec fn number_at(fields: Seq<(Seq<char>, Seq<char>)>, key: Seq<char>, max: int) -> Option<
    int,
> {
    match value_of(fields, key) {
        None => None,
        Some(value) => number_of(value, max),
    }
}

/// The number of a key, or `default` where it has none up to `max`.
pub fn number_or(fields: &Vec<(String, String)>, key: &str, max: u64, default: u64) -> (r: u64)
    requires
        default <= max,
    ensures
        r <= max,
        r == match number_at(setting_models(fields@), key@, max as int) {
            Some(n) => n,
            None => default as int,
        },
{
    match lookup(fields, key) {
        None => default,
        Some(value) => match parse_number(value.as_str(), max) {
            None => default,
            Some(n) => n,
        },
    }
}

/// The text of a number.
pub open spec fn decimal(n: nat) -> Seq<char>
    decreases n,
{
    if n < 10 {
        seq![hex_digit(n as int)]
    } else {
        decimal(n / 10).push(hex_digit((n % 10) as int))
    }
}

/// The text of a number.
pub fn decimal_text(n: u64) -> (r: String)
    ensures
        r@ == decimal(n as nat),
    decreases n,
{
    if n < 10 {
        let r = digit_text(n as u8).to_owned();
        assert(r@ =~= decimal(n as nat));
        r
    } else {
        let mut r = decimal_text(n / 10);
        r.append(digit_text((n % 10) as u8));
        assert(r@ =~= decimal(n as nat));
        r
    }
}

/// The text of a number that may exceed 64 bits.
pub fn decimal_text_wide(n: u128) -> (r: String)
    ensures
        r@ == decimal(n as nat),
    decreases n,
{
    if n <= u64::MAX as u128 {
        decimal_text(n as u64)
    } else {
        let mut r = decimal_text_wide(n / 10);
        r.append(digit_text((n % 10) as u8));
        assert(r@ =~= decimal(n as nat));
        r
    }
}

/// A number reads back from its text, which has digits only.
pub proof fn lemma_decimal_reads_back(n: nat)
    ensures
        decimal(n).len() > 0,
        all_digits(decimal(n)),
        digits_value(decimal(n)) == n,
    decreases n,
{
    let last = hex_digit((n % 10) as int);
    assert(last as u32 == 48 + n % 10);
    if n < 10 {
        assert(decimal(n).drop_last() =~= seq![]);
        assert(digits_value(seq![]) == 0);
    } else {
        lemma_decimal_reads_back(n / 10);
        assert(decimal(n).drop_last() =~= decimal(n / 10));
        assert forall|i: int| 0 <= i < decimal(n).len() implies '0' <= #[trigger] decimal(n)[i]
            <= '9' by {
            if i < decimal(n / 10).len() {
                assert(decimal(n)[i] == decimal(n / 10)[i]);
            }
        }
    }
}

/// Whether a text has no white space at its ends.
pub open spec fn is_trimmed(text: Seq<char>) -> bool {
    text.len() == 0 || (!white_space(text[0]) && !white_space(text.last()))
}

/// Whether a text stays within its line.
pub open spec fn is_one_line(text: Seq<char>) -> bool {
    forall|i: int| 0 <= i < text.len() ==> #[trigger] text[i] != '\n'
}

/// Whether a text can be a key.
pub open spec fn is_key(text: Seq<char>) -> bool {
    &&& text.len() > 0
    &&& is_trimmed(text)
    &&& is_one_line(text)
    &&& text[0] != '#'
    &&& text[0] != '['
    &&& forall|i: int| 0 <= i < text.len() ==> #[trigger] text[i] != '='
}

/// Whether a text can be a value.
pub open spec fn is_value(text: Seq<char>) -> bool {
    is_trimmed(text) && is_one_line(text)
}

/// The text of a number can be a value.
pub proof fn lemma_decimal_is_value(n: nat)
    ensures
        is_value(decimal(n)),
{
    lemma_decimal_reads_back(n);
    let text = decimal(n);
    assert('0' <= text[0] <= '9');
    assert('0' <= text[text.len() - 1] <= '9');
    assert forall|i: int| 0 <= i < text.len() implies #[trigger] text[i] != '\n' by {
        assert('0' <= text[i] <= '9');
    }
}

/// A trimmed text stays as it is.
proof fn lemma_trimmed_stays(text: Seq<char>)
    requires
        is_trimmed(text),
    ensures
        trimmed(text) == text,
        trim_start(text) == text,
        trim_end(text) == text,
{
}

/// Trimming its end keeps the start of a text.
proof fn lemma_trim_end_keeps_start(text: Seq<char>)
    requires
        text.len() > 0,
        !white_space(text[0]),
    ensures
        trim_end(text).len() > 0,
        trim_end(text)[0] == text[0],
        trim_start(text) == text,
    decreases text.len(),
{
    if white_space(text.last()) {
        lemma_trim_end_keeps_start(text.drop_last());
    }
}

/// The line of a setting.
pub open spec fn setting_line(key: Seq<char>, value: Seq<char>) -> Seq<char> {
    key + seq![' ', '=', ' '] + value
}

/// The line of a setting makes that setting.
proof fn lemma_setting_line(key: Seq<char>, value: Seq<char>)
    requires
        is_key(key),
        is_value(value),
    ensures
        setting_of(setting_line(key, value)) == Some((key, value)),
        is_one_line(setting_line(key, value)),
{
    let line = setting_line(key, value);
    let n = key.len() as int;
    assert(line[0] == key[0]);
    assert(line[n] == ' ');
    assert(line[n + 1] == '=');
    assert(line[n + 2] == ' ');
    assert forall|i: int| 0 <= i < line.len() implies #[trigger] line[i] != '\n' by {
        if i < n {
            assert(line[i] == key[i]);
        } else if i >= n + 3 {
            assert(line[i] == value[i - n - 3]);
        }
    }
    assert(trim_start(line) == line);
    let text = trimmed(line);
    if value.len() == 0 {
        let short = line.drop_last();
        assert(line.last() == ' ');
        assert(short.last() == '=');
        assert(trim_end(line) == trim_end(short));
        assert(trim_end(short) == short);
        assert(text == short);
        assert forall|i: int| 0 <= i < n + 1 implies #[trigger] text[i] != '=' by {
            if i < n {
                assert(text[i] == key[i]);
            }
        }
        lemma_is_position(text, '=', 0, n + 1);
        assert(text.subrange(n + 2, text.len() as int) =~= value);
    } else {
        assert(line.last() == value.last());
        assert(text == line);
        assert forall|i: int| 0 <= i < n + 1 implies #[trigger] text[i] != '=' by {
            if i < n {
                assert(text[i] == key[i]);
            }
        }
        lemma_is_position(text, '=', 0, n + 1);
        let right = text.subrange(n + 2, text.len() as int);
        assert(right[0] == ' ');
        assert(right.drop_first() =~= value);
        assert(trim_start(value) == value);
        assert(trim_start(right) == value);
        assert(trimmed(right) == value);
    }
    let left = text.subrange(0, n + 1);
    assert(left[0] == key[0]);
    assert(left.last() == ' ');
    assert(left.drop_last() =~= key);
    assert(trim_start(left) == left);
    assert(trim_end(left) == trim_end(key));
    lemma_trimmed_stays(key);
    assert(trimmed(left) == key);
}

/// A line and what follows it.
proof fn lemma_first_line(line: Seq<char>, rest: Seq<char>)
    requires
        is_one_line(line),
    ensures
        settings(line + seq!['\n'] + rest) == match setting_of(line) {
            None => settings(rest),
            Some(setting) => seq![setting] + settings(rest),
        },
{
    let text = line + seq!['\n'] + rest;
    let n = line.len() as int;
    assert(text[n] == '\n');
    assert forall|i: int| 0 <= i < n implies text[i] != '\n' by {
        assert(text[i] == line[i]);
    }
    lemma_is_position(text, '\n', 0, n);
    assert(text.subrange(0, n) =~= line);
    assert(after_line(text) =~= rest);
}

/// A setting with a comment before it.
#[derive(Debug)]
pub struct SettingItem {
    /// The comment.
    pub comment: String,
    /// The key.
    pub key: String,
    /// The value.
    pub value: String,
}

/// What such an item holds.
pub struct ItemModel {
    pub comment: Seq<char>,
    pub key: Seq<char>,
    pub value: Seq<char>,
}

impl View for SettingItem {
    type V = ItemModel;

    open spec fn view(&self) -> ItemModel {
        ItemModel { comment: self.comment@, key: self.key@, value: self.value@ }
    }
}

/// What a list of items holds.
pub open spec fn item_models(items: Seq<SettingItem>) -> Seq<ItemModel> {
    items.map_values(|item: SettingItem| item@)
}

/// An item.
pub fn setting_item(comment: &str, key: &str, value: String) -> (r: SettingItem)
    ensures
        r@ == (ItemModel { comment: comment@, key: key@, value: value@ }),
{
    SettingItem { comment: comment.to_owned(), key: key.to_owned(), value }
}

/// The text of an item.
pub open spec fn item_text(item: ItemModel) -> Seq<char> {
    seq!['#', ' '] + item.comment + seq!['\n'] + setting_line(item.key, item.value) + seq!['\n']
}

/// The text of items one after the other.
pub open spec fn items_text(items: Seq<ItemModel>) -> Seq<char>
    decreases items.len(),
{
    if items.len() == 0 {
        seq![]
    } else {
        items_text(items.drop_last()) + item_text(items.last())
    }
}

/// Whether items can be written so that they are read back.
pub open spec fn are_items(items: Seq<ItemModel>) -> bool {
    forall|i: int|
        0 <= i < items.len() ==> is_one_line((#[trigger] items[i]).comment) && is_key(items[i].key)
            && is_value(items[i].value)
}

/// The settings of items.
pub open spec fn item_settings(items: Seq<ItemModel>) -> Seq<(Seq<char>, Seq<char>)> {
    items.map_values(|item: ItemModel| (item.key, item.value))
}

/// The text of a settings file: a heading, a blank line where it is `spaced`,
/// and items.
pub open spec fn settings_text(heading: Seq<char>, spaced: bool, items: Seq<ItemModel>) -> Seq<
    char,
> {
    if spaced {
        seq!['#', ' '] + heading + seq!['\n', '\n'] + items_text(items)
    } else {
        seq!['#', ' '] + heading + seq!['\n'] + items_text(items)
    }
}

/// Writes a settings file.
pub fn write_settings(heading: &str, spaced: bool, items: &Vec<SettingItem>) -> (r: String)
    ensures
        r@ == settings_text(heading@, spaced, item_models(items@)),
{
    proof {
        reveal_strlit("# ");
        reveal_strlit("\n");
        reveal_strlit(" = ");
        assert("# "@ =~= seq!['#', ' ']);
        assert("\n"@ =~= seq!['\n']);
        assert(" = "@ =~= seq![' ', '=', ' ']);
    }
    let ghost models = item_models(items@);
    let ghost head = if spaced {
        seq!['#', ' '] + heading@ + seq!['\n', '\n']
    } else {
        seq!['#', ' '] + heading@ + seq!['\n']
    };
    let mut out = String::new();
    out.append("# ");
    out.append(heading);
    out.append("\n");
    if spaced {
        out.append("\n");
    }
    let mut i: usize = 0;
    assert(models.take(0) =~= seq![]);
    assert(out@ =~= head + items_text(models.take(0)));
    while i < items.len()
        invariant
            i <= items.len(),
            models == item_models(items@),
            out@ == head + items_text(models.take(i as int)),
            "# "@ == seq!['#', ' '],
            "\n"@ == seq!['\n'],
            " = "@ == seq![' ', '=', ' '],
        decreases items.len() - i,
    {
        let ghost before = out@;
        let item = &items[i];
        out.append("# ");
        out.append(item.comment.as_str());
        out.append("\n");
        out.append(item.key.as_str());
        out.append(" = ");
        out.append(item.value.as_str());
        out.append("\n");
        proof {
            let now = models.take(i + 1);
            assert(now.drop_last() =~= models.take(i as int));
            assert(now.last() == item@);
            assert(out@ =~= before + item_text(item@));
            assert(out@ =~= head + items_text(now));
        }
        i += 1;
    }
    assert(models.take(i as int) =~= models);
    out
}

/// A comment makes no setting.
proof fn lemma_comment(comment: Seq<char>)
    requires
        is_one_line(comment),
    ensures
        setting_of(seq!['#', ' '] + comment) is None,
        is_one_line(seq!['#', ' '] + comment),
{
    let line = seq!['#', ' '] + comment;
    assert(line[0] == '#');
    assert(!white_space('#'));
    lemma_trim_end_keeps_start(line);
    assert forall|i: int| 0 <= i < line.len() implies #[trigger] line[i] != '\n' by {
        if i >= 2 {
            assert(line[i] == comment[i - 2]);
        }
    }
}

/// Items that were written are read back, whatever follows them.
proof fn lemma_items_are_read_back(items: Seq<ItemModel>, rest: Seq<char>)
    requires
        are_items(items),
    ensures
        settings(items_text(items) + rest) == item_settings(items) + settings(rest),
    decreases items.len(),
{
    if items.len() == 0 {
        assert(items_text(items) + rest =~= rest);
        assert(item_settings(items) + settings(rest) =~= settings(rest));
    } else {
        let earlier = items.drop_last();
        let item = items.last();
        assert(item == items[items.len() - 1]);
        let comment = seq!['#', ' '] + item.comment;
        let line = setting_line(item.key, item.value);
        let text = item_text(item);
        assert forall|i: int| 0 <= i < earlier.len() implies is_one_line(
            (#[trigger] earlier[i]).comment,
        ) && is_key(earlier[i].key) && is_value(earlier[i].value) by {
            assert(earlier[i] == items[i]);
        }
        lemma_items_are_read_back(earlier, text + rest);
        assert(items_text(items) + rest =~= items_text(earlier) + (text + rest));
        lemma_comment(item.comment);
        lemma_setting_line(item.key, item.value);
        assert(text + rest =~= comment + seq!['\n'] + (line + seq!['\n'] + rest));
        lemma_first_line(comment, line + seq!['\n'] + rest);
        lemma_first_line(line, rest);
        assert(settings(text + rest) == seq![(item.key, item.value)] + settings(rest));
        assert(item_settings(items) =~= item_settings(earlier).push((item.key, item.value)));
        assert(item_settings(earlier) + (seq![(item.key, item.value)] + settings(rest))
            =~= item_settings(items) + settings(rest));
    }
}

/// Settings that were written are read back as they were.
pub proof fn law_written_settings_are_read_back(
    heading: Seq<char>,
    spaced: bool,
    items: Seq<ItemModel>,
)
    requires
        is_one_line(heading),
        are_items(items),
    ensures
        settings(settings_text(heading, spaced, items)) == item_settings(items),
{
    let body = items_text(items);
    let line = seq!['#', ' '] + heading;
    let blank: Seq<char> = seq![];
    lemma_comment(heading);
    if spaced {
        let rest = blank + seq!['\n'] + body;
        assert(settings_text(heading, spaced, items) =~= line + seq!['\n'] + rest);
        lemma_first_line(line, rest);
        assert(trimmed(blank).len() == 0);
        lemma_first_line(blank, body);
    } else {
        assert(settings_text(heading, spaced, items) =~= line + seq!['\n'] + body);
        lemma_first_line(line, body);
    }
    lemma_items_are_read_back(items, seq![]);
    assert(body + seq![] =~= body);
    assert(settings(seq![]) =~= seq![]);
    assert(item_settings(items) + settings(seq![]) =~= item_settings(items));
}

/// Settings without those that a later one of the same key replaces.
pub open spec fn merged(fields: Seq<(Seq<char>, Seq<char>)>) -> Seq<(Seq<char>, Seq<char>)>
    decreases fields.len(),
{
    if fields.len() == 0 {
        seq![]
    } else {
        let rest = merged(fields.drop_first());
        if value_of(fields.drop_first(), fields[0].0) is Some {
            rest
        } else {
            seq![fields[0]] + rest
        }
    }
}

/// Settings with another value for a key.
pub open spec fn with_value(
    fields: Seq<(Seq<char>, Seq<char>)>,
    key: Seq<char>,
    value: Seq<char>,
) -> Seq<(Seq<char>, Seq<char>)> {
    fields.map_values(
        |field: (Seq<char>, Seq<char>)|
            if field.0 == key {
                (key, value)
            } else {
                field
            },
    )
}

/// The lines of settings, with line ends between them.
pub open spec fn setting_lines(fields: Seq<(Seq<char>, Seq<char>)>) -> Seq<char>
    decreases fields.len(),
{
    if fields.len() == 0 {
        seq![]
    } else if fields.len() == 1 {
        setting_line(fields[0].0, fields[0].1)
    } else {
        setting_lines(fields.drop_last()) + seq!['\n'] + setting_line(
            fields.last().0,
            fields.last().1,
        )
    }
}

/// A key has a value exactly where a setting names it.
proof fn lemma_value_of(fields: Seq<(Seq<char>, Seq<char>)>, key: Seq<char>)
    ensures
        value_of(fields, key) is Some <==> exists|i: int|
            0 <= i < fields.len() && (#[trigger] fields[i]).0 == key,
    decreases fields.len(),
{
    if fields.len() > 0 {
        let earlier = fields.drop_last();
        lemma_value_of(earlier, key);
        assert(fields.last() == fields[fields.len() - 1]);
        if exists|i: int| 0 <= i < fields.len() && (#[trigger] fields[i]).0 == key {
            let i = choose|i: int| 0 <= i < fields.len() && (#[trigger] fields[i]).0 == key;
            if i < earlier.len() {
                assert(earlier[i].0 == key);
            }
        }
        if exists|i: int| 0 <= i < earlier.len() && (#[trigger] earlier[i]).0 == key {
            let i = choose|i: int| 0 <= i < earlier.len() && (#[trigger] earlier[i]).0 == key;
            assert(fields[i].0 == key);
        }
    }
}

/// Whether a setting from a position on has a key.
fn named_from(fields: &Vec<(String, String)>, key: &str, from: usize) -> (r: bool)
    requires
        from <= fields@.len(),
    ensures
        r == (value_of(setting_models(fields@).skip(from as int), key@) is Some),
{
    let ghost rest = setting_models(fields@).skip(from as int);
    proof {
        lemma_value_of(rest, key@);
    }
    let mut i: usize = from;
    while i < fields.len()
        invariant
            from <= i <= fields.len(),
            rest == setting_models(fields@).skip(from as int),
            forall|j: int| 0 <= j < i - from ==> (#[trigger] rest[j]).0 != key@,
        decreases fields.len() - i,
    {
        assert(rest[i - from].0 == fields@[i as int].0@);
        if str_equal(fields[i].0.as_str(), key) {
            proof {
                lemma_value_of(rest, key@);
            }
            return true;
        }
        i += 1;
    }
    proof {
        lemma_value_of(rest, key@);
    }
    false
}

/// Writes settings as lines, each key once, with another value for one key.
pub fn write_with_value(fields: &Vec<(String, String)>, key: &str, value: &str) -> (r: String)
    ensures
        r@ == setting_lines(with_value(merged(setting_models(fields@)), key@, value@)),
{
    proof {
        reveal_strlit("\n");
        reveal_strlit(" = ");
        assert("\n"@ =~= seq!['\n']);
        assert(" = "@ =~= seq![' ', '=', ' ']);
    }
    let ghost all = setting_models(fields@);
    let ghost mut kept: Seq<(Seq<char>, Seq<char>)> = seq![];
    let mut out = String::new();
    let mut written = false;
    let mut i: usize = 0;
    proof {
        assert(all.skip(0) =~= all);
        assert(kept + merged(all) =~= merged(all));
        assert(out@ =~= setting_lines(with_value(kept, key@, value@)));
    }
    while i < fields.len()
        invariant
            i <= fields.len(),
            all == setting_models(fields@),
            written == (kept.len() > 0),
            kept + merged(all.skip(i as int)) == merged(all),
            out@ == setting_lines(with_value(kept, key@, value@)),
            "\n"@ == seq!['\n'],
            " = "@ == seq![' ', '=', ' '],
        decreases fields.len() - i,
    {
        let ghost rest = all.skip(i as int);
        let ghost before = out@;
        proof {
            assert(rest.drop_first() =~= all.skip(i + 1));
            assert(rest[0] == (fields@[i as int].0@, fields@[i as int].1@));
        }
        if !named_from(fields, fields[i].0.as_str(), i + 1) {
            if written {
                out.append("\n");
            }
            let chosen = str_equal(fields[i].0.as_str(), key);
            out.append(fields[i].0.as_str());
            out.append(" = ");
            if chosen {
                out.append(value);
            } else {
                out.append(fields[i].1.as_str());
            }
            written = true;
            proof {
                let ghost earlier = kept;
                kept = kept.push(rest[0]);
                let lines = with_value(kept, key@, value@);
                assert(lines.drop_last() =~= with_value(earlier, key@, value@));
                assert(earlier + (seq![rest[0]] + merged(rest.drop_first())) =~= kept + merged(
                    rest.drop_first(),
                ));
                let line = setting_line(lines.last().0, lines.last().1);
                if earlier.len() == 0 {
                    assert(lines.len() == 1);
                    assert(before =~= seq![]);
                    assert(out@ =~= line);
                } else {
                    assert(out@ =~= before + seq!['\n'] + line);
                }
            }
        }
        i += 1;
    }
    assert(all.skip(i as int) =~= seq![]);
    assert(kept + merged(seq![]) =~= kept);
    out
}

/// Whether a key and a value can stand in a settings file; a key may be empty.
pub open spec fn is_setting(field: (Seq<char>, Seq<char>)) -> bool {
    (field.0.len() == 0 || is_key(field.0)) && is_value(field.1)
}

/// Whether all settings can stand in a settings file.
pub open spec fn are_settings(fields: Seq<(Seq<char>, Seq<char>)>) -> bool {
    forall|i: int| 0 <= i < fields.len() ==> is_setting(#[trigger] fields[i])
}

/// A trimmed text is trimmed, and a part of the text.
proof fn lemma_trimmed(text: Seq<char>)
    ensures
        is_trimmed(trimmed(text)),
        forall|i: int| 0 <= i < trimmed(text).len() ==> text.contains(#[trigger] trimmed(text)[i]),
{
    lemma_trim_start_part(text);
    let left = trim_start(text);
    lemma_trim_end_part(left);
    let whole = trim_end(left);
    if whole.len() > 0 {
        assert(whole[0] == left[0]);
    }
    assert forall|i: int| 0 <= i < whole.len() implies text.contains(#[trigger] whole[i]) by {
        assert(whole[i] == left[i]);
    }
}

/// Trimming its start leaves the end of a text.
proof fn lemma_trim_start_part(text: Seq<char>)
    ensures
        trim_start(text).len() == 0 || !white_space(trim_start(text)[0]),
        forall|i: int|
            0 <= i < trim_start(text).len() ==> text.contains(#[trigger] trim_start(text)[i]),
    decreases text.len(),
{
    if text.len() > 0 && white_space(text[0]) {
        let rest = text.drop_first();
        lemma_trim_start_part(rest);
        assert forall|i: int| 0 <= i < trim_start(rest).len() implies text.contains(
            #[trigger] trim_start(rest)[i],
        ) by {
            let c = trim_start(rest)[i];
            let j = choose|j: int| 0 <= j < rest.len() && rest[j] == c;
            assert(text[j + 1] == c);
        }
    }
}

/// Trimming its end leaves the start of a text.
proof fn lemma_trim_end_part(text: Seq<char>)
    ensures
        trim_end(text).len() == 0 || !white_space(trim_end(text).last()),
        trim_end(text).len() <= text.len(),
        forall|i: int| 0 <= i < trim_end(text).len() ==> #[trigger] trim_end(text)[i] == text[i],
    decreases text.len(),
{
    if text.len() > 0 && white_space(text.last()) {
        lemma_trim_end_part(text.drop_last());
    }
}

/// What a line sets can stand in a settings file.
proof fn lemma_setting_of_line(line: Seq<char>)
    requires
        is_one_line(line),
        setting_of(line) is Some,
    ensures
        is_setting(setting_of(line)->0),
{
    let text = trimmed(line);
    lemma_trimmed(line);
    let at = position(text, '=', 0);
    lemma_position(text, '=', 0);
    let left = text.subrange(0, at);
    let right = text.subrange(at + 1, text.len() as int);
    lemma_trimmed(left);
    lemma_trimmed(right);
    assert forall|i: int| 0 <= i < text.len() implies #[trigger] text[i] != '\n' by {
        assert(line.contains(text[i]));
    }
    let key = trimmed(left);
    assert forall|i: int| 0 <= i < key.len() implies #[trigger] key[i] != '\n' && key[i] != '=' by {
        assert(left.contains(key[i]));
        let j = choose|j: int| 0 <= j < left.len() && left[j] == key[i];
        assert(text[j] == key[i]);
    }
    let value = trimmed(right);
    assert forall|i: int| 0 <= i < value.len() implies #[trigger] value[i] != '\n' by {
        assert(right.contains(value[i]));
        let j = choose|j: int| 0 <= j < right.len() && right[j] == value[i];
        assert(text[at + 1 + j] == value[i]);
    }
    if key.len() > 0 {
        assert(!white_space(text[0]));
        assert(left[0] == text[0]);
        lemma_trim_end_keeps_start(left);
    }
}

/// What is read from a settings file can be written to one.
pub proof fn lemma_settings_are_settings(text: Seq<char>)
    ensures
        are_settings(settings(text)),
    decreases text.len(),
{
    if text.len() > 0 {
        lemma_position(text, '\n', 0);
        let line = text.subrange(0, position(text, '\n', 0));
        let rest = settings(after_line(text));
        lemma_settings_are_settings(after_line(text));
        if setting_of(line) is Some {
            lemma_setting_of_line(line);
            let all = seq![setting_of(line)->0] + rest;
            assert forall|i: int| 0 <= i < all.len() implies is_setting(#[trigger] all[i]) by {
                if i > 0 {
                    assert(all[i] == rest[i - 1]);
                }
            }
        }
    }
}

/// The line of a setting makes that setting, also where its key is empty.
proof fn lemma_setting_reads_back(field: (Seq<char>, Seq<char>))
    requires
        is_setting(field),
    ensures
        setting_of(setting_line(field.0, field.1)) == Some(field),
        is_one_line(setting_line(field.0, field.1)),
{
    let (key, value) = field;
    if key.len() > 0 {
        lemma_setting_line(key, value);
    } else {
        let line = setting_line(key, value);
        assert(line =~= seq![' ', '=', ' '] + value);
        let left = line.drop_first();
        assert(left[0] == '=' && left[1] == ' ');
        assert(trim_start(left) == left);
        assert(trim_start(line) == left);
        assert forall|i: int| 0 <= i < line.len() implies #[trigger] line[i] != '\n' by {
            if i >= 3 {
                assert(line[i] == value[i - 3]);
            }
        }
        let text = trimmed(line);
        if value.len() == 0 {
            let short = left.drop_last();
            assert(left.last() == ' ');
            assert(short =~= seq!['=']);
            assert(trim_end(left) == trim_end(short));
            assert(trim_end(short) == short);
            lemma_is_position(text, '=', 0, 0);
            assert(text.subrange(1, 1) =~= value);
        } else {
            assert(left.last() == value.last());
            assert(text == left);
            lemma_is_position(text, '=', 0, 0);
            let right = text.subrange(1, text.len() as int);
            assert(right[0] == ' ');
            assert(right.drop_first() =~= value);
            assert(trim_start(value) == value);
            assert(trim_start(right) == value);
        }
        assert(text.subrange(0, 0) =~= key);
        assert(trimmed(key) == key);
        lemma_trimmed_stays(value);
    }
}

/// Lines that were written are read back, whatever follows them.
proof fn lemma_lines_are_read_back(fields: Seq<(Seq<char>, Seq<char>)>, rest: Seq<char>)
    requires
        fields.len() > 0,
        are_settings(fields),
    ensures
        settings(setting_lines(fields) + seq!['\n'] + rest) == fields + settings(rest),
    decreases fields.len(),
{
    let last = fields.last();
    assert(last == fields[fields.len() - 1]);
    let line = setting_line(last.0, last.1);
    lemma_setting_reads_back(last);
    lemma_first_line(line, rest);
    if fields.len() == 1 {
        assert(fields =~= seq![last]);
    } else {
        let earlier = fields.drop_last();
        assert forall|i: int| 0 <= i < earlier.len() implies is_setting(#[trigger] earlier[i]) by {
            assert(earlier[i] == fields[i]);
        }
        let tail = line + seq!['\n'] + rest;
        lemma_lines_are_read_back(earlier, tail);
        assert(setting_lines(fields) + seq!['\n'] + rest =~= setting_lines(earlier) + seq!['\n']
            + tail);
        assert(earlier + (seq![last] + settings(rest)) =~= fields + settings(rest));
    }
}

/// Settings that were written as lines are read back.
pub proof fn law_lines_are_read_back(fields: Seq<(Seq<char>, Seq<char>)>)
    requires
        are_settings(fields),
    ensures
        settings(setting_lines(fields)) == fields,
{
    if fields.len() > 0 {
        let last = fields.last();
        assert(last == fields[fields.len() - 1]);
        let line = setting_line(last.0, last.1);
        lemma_setting_reads_back(last);
        lemma_no_line_end(line);
        if fields.len() == 1 {
            assert(fields =~= seq![last]);
        } else {
            let earlier = fields.drop_last();
            assert forall|i: int| 0 <= i < earlier.len() implies is_setting(
                #[trigger] earlier[i],
            ) by {
                assert(earlier[i] == fields[i]);
            }
            lemma_lines_are_read_back(earlier, line);
            assert(earlier + seq![last] =~= fields);
        }
    }
}

/// A text of one line.
proof fn lemma_no_line_end(line: Seq<char>)
    requires
        is_one_line(line),
        line.len() > 0,
    ensures
        settings(line) == match setting_of(line) {
            None => Seq::<(Seq<char>, Seq<char>)>::empty(),
            Some(setting) => seq![setting],
        },
{
    lemma_position(line, '\n', 0);
    assert(position(line, '\n', 0) == line.len());
    assert(line.subrange(0, line.len() as int) =~= line);
    assert(settings(after_line(line)) =~= seq![]);
    if setting_of(line) is Some {
        assert(seq![setting_of(line)->0] + settings(after_line(line)) =~= seq![setting_of(line)->0]);
    }
}

/// A setting before others gives way to them.
proof fn lemma_value_behind(
    first: (Seq<char>, Seq<char>),
    rest: Seq<(Seq<char>, Seq<char>)>,
    key: Seq<char>,
)
    ensures
        value_of(seq![first] + rest, key) == match value_of(rest, key) {
            Some(value) => Some(value),
            None => if first.0 == key {
                Some(first.1)
            } else {
                None
            },
        },
    decreases rest.len(),
{
    let all = seq![first] + rest;
    if rest.len() == 0 {
        assert(all.last() == first);
        assert(all.drop_last() =~= seq![]);
    } else {
        assert(all.last() == rest.last());
        assert(all.drop_last() =~= seq![first] + rest.drop_last());
        lemma_value_behind(first, rest.drop_last(), key);
    }
}

/// Merging settings keeps the value of every key, and what can stand in a
/// settings file.
pub proof fn law_merged_keeps_values(fields: Seq<(Seq<char>, Seq<char>)>, key: Seq<char>)
    ensures
        value_of(merged(fields), key) == value_of(fields, key),
        are_settings(fields) ==> are_settings(merged(fields)),
    decreases fields.len(),
{
    if fields.len() > 0 {
        let rest = fields.drop_first();
        law_merged_keeps_values(rest, key);
        assert(fields =~= seq![fields[0]] + rest);
        lemma_value_behind(fields[0], rest, key);
        lemma_value_behind(fields[0], merged(rest), key);
        if are_settings(fields) {
            assert forall|i: int| 0 <= i < rest.len() implies is_setting(#[trigger] rest[i]) by {
                assert(rest[i] == fields[i + 1]);
            }
            let all = seq![fields[0]] + merged(rest);
            assert forall|i: int| 0 <= i < all.len() implies is_setting(#[trigger] all[i]) by {
                if i > 0 {
                    assert(all[i] == merged(rest)[i - 1]);
                }
            }
        }
    }
}

/// Another value for a key is that key's value, where it had one, and changes
/// no other.
pub proof fn law_with_value(
    fields: Seq<(Seq<char>, Seq<char>)>,
    key: Seq<char>,
    value: Seq<char>,
    other: Seq<char>,
)
    ensures
        value_of(with_value(fields, key, value), other) == if other == key && value_of(
            fields,
            key,
        ) is Some {
            Some(value)
        } else {
            value_of(fields, other)
        },
    decreases fields.len(),
{
    if fields.len() > 0 {
        let after = with_value(fields, key, value);
        assert(after.drop_last() =~= with_value(fields.drop_last(), key, value));
        law_with_value(fields.drop_last(), key, value, other);
    }
}

/// A number is one or more decimal digits, with a plus sign before them at
/// most, up to the greatest that is asked for; a further digit counts tenfold
/// what stands before it.
pub proof fn law_numbers_are_decimal(text: Seq<char>, max: int)
    ensures
        number_of(text, max) matches Some(n) ==> 0 <= n <= max,
        number_of(Seq::<char>::empty(), max) is None,
        all_digits(text) && text.len() > 0 && digits_value(text) <= max ==> number_of(text, max)
            == Some(digits_value(text)),
        text.len() > 0 && all_digits(text) ==> digits_value(text) == 10 * digits_value(
            text.drop_last(),
        ) + (text.last() as int - 48),
        text.len() > 0 && all_digits(text) ==> number_of(seq!['+'] + text, max) == number_of(
            text,
            max,
        ),
        number_of(text, max) is Some ==> text.len() > 0,
{
    if text.len() > 0 {
        assert(unsigned(seq!['+'] + text) =~= text);
        if text[0] == '+' {
            assert(!all_digits(text)) by {
                if all_digits(text) {
                    assert('0' <= text[0]);
                }
            }
        }
    }
    if number_of(text, max) is Some {
        lemma_digits_are_positive(unsigned(text));
    }
}

proof fn lemma_digits_are_positive(text: Seq<char>)
    requires
        all_digits(text),
    ensures
        digits_value(text) >= 0,
    decreases text.len(),
{
    if text.len() > 0 {
        assert forall|i: int| 0 <= i < text.drop_last().len() implies '0'
            <= #[trigger] text.drop_last()[i] <= '9' by {
            assert(text.drop_last()[i] == text[i]);
        }
        lemma_digits_are_positive(text.drop_last());
        assert('0' <= text[text.len() - 1]);
    }
}

/// Of several settings of one key the last counts, and a key without any has
/// no value.
pub proof fn law_last_setting_counts(
    fields: Seq<(Seq<char>, Seq<char>)>,
    key: Seq<char>,
    value: Seq<char>,
    other: Seq<char>,
)
    ensures
        value_of(fields.push((key, value)), key) == Some(value),
        other != key ==> value_of(fields.push((key, value)), other) == value_of(fields, other),
        value_of(Seq::<(Seq<char>, Seq<char>)>::empty(), key) is None,
{
    assert(fields.push((key, value)).drop_last() =~= fields);
}

/// Empty lines, comments, headings and lines without an equals sign make no
/// setting.
pub proof fn law_other_lines_are_passed_over(line: Seq<char>)
    ensures
        trimmed(line).len() == 0 ==> setting_of(line) is None,
        trimmed(line).len() > 0 && trimmed(line)[0] == '#' ==> setting_of(line) is None,
        trimmed(line).len() > 0 && trimmed(line)[0] == '[' ==> setting_of(line) is None,
        (forall|i: int| 0 <= i < trimmed(line).len() ==> #[trigger] trimmed(line)[i] != '=')
            ==> setting_of(line) is None,
{
    let text = trimmed(line);
    lemma_position(text, '=', 0);
    if (forall|i: int| 0 <= i < text.len() ==> #[trigger] text[i] != '=') {
        let at = position(text, '=', 0);
        if 0 <= at < text.len() {
            assert(text[at] != '=');
        }
    }
}

} // verus!
