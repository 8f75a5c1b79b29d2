//! Transliteration between the Latin (QWERTY) key layout and the Cyrillic
//! layout: a fixed bidirectional character table, a direction heuristic that
//! counts which alphabet dominates the input, and the conversion itself.
use vstd::prelude::*;

verus! {

/// The fixed Latin-to-Cyrillic character table: `Some(image)` for the
/// covered characters, `None` for everything else.
pub open spec fn forward(c: char) -> Option<char> {
    if c == '@' {
        Some('"')
    } else if c == '#' {
        Some('№')
    } else if c == '$' {
        Some(';')
    } else if c == '^' {
        Some(':')
    } else if c == '&' {
        Some('?')
    } else if c == 'Q' {
        Some('Й')
    } else if c == 'W' {
        Some('Ц')
    } else if c == 'E' {
        Some('У')
    } else if c == 'R' {
        Some('К')
    } else if c == 'T' {
        Some('Е')
    } else if c == 'Y' {
        Some('Н')
    } else if c == 'U' {
        Some('Г')
    } else if c == 'I' {
        Some('Ш')
    } else if c == 'O' {
        Some('Щ')
    } else if c == 'P' {
        Some('З')
    } else if c == '{' {
        Some('Х')
    } else if c == '}' {
        Some('Ъ')
    } else if c == '|' {
        Some('/')
    } else if c == 'A' {
        Some('Ф')
    } else if c == 'S' {
        Some('Ы')
    } else if c == 'D' {
        Some('В')
    } else if c == 'F' {
        Some('А')
    } else if c == 'G' {
        Some('П')
    } else if c == 'H' {
        Some('Р')
    } else if c == 'J' {
        Some('О')
    } else if c == 'K' {
        Some('Л')
    } else if c == 'L' {
        Some('Д')
    } else if c == ':' {
        Some('Ж')
    } else if c == '"' {
        Some('Э')
    } else if c == 'Z' {
        Some('Я')
    } else if c == 'X' {
        Some('Ч')
    } else if c == 'C' {
        Some('С')
    } else if c == 'V' {
        Some('М')
    } else if c == 'B' {
        Some('И')
    } else if c == 'N' {
        Some('Т')
    } else if c == 'M' {
        Some('Ь')
    } else if c == '<' {
        Some('Б')
    } else if c == '>' {
        Some('Ю')
    } else if c == '?' {
        Some(',')
    } else if c == '~' {
        Some('Ё')
    } else if c == 'q' {
        Some('й')
    } else if c == 'w' {
        Some('ц')
    } else if c == 'e' {
        Some('у')
    } else if c == 'r' {
        Some('к')
    } else if c == 't' {
        Some('е')
    } else if c == 'y' {
        Some('н')
    } else if c == 'u' {
        Some('г')
    } else if c == 'i' {
        Some('ш')
    } else if c == 'o' {
        Some('щ')
    } else if c == 'p' {
        Some('з')
    } else if c == '[' {
        Some('х')
    } else if c == ']' {
        Some('ъ')
    } else if c == 'a' {
        Some('ф')
    } else if c == 's' {
        Some('ы')
    } else if c == 'd' {
        Some('в')
    } else if c == 'f' {
        Some('а')
    } else if c == 'g' {
        Some('п')
    } else if c == 'h' {
        Some('р')
    } else if c == 'j' {
        Some('о')
    } else if c == 'k' {
        Some('л')
    } else if c == 'l' {
        Some('д')
    } else if c == ';' {
        Some('ж')
    } else if c == '\'' {
        Some('э')
    } else if c == 'z' {
        Some('я')
    } else if c == 'x' {
        Some('ч')
    } else if c == 'c' {
        Some('с')
    } else if c == 'v' {
        Some('м')
    } else if c == 'b' {
        Some('и')
    } else if c == 'n' {
        Some('т')
    } else if c == 'm' {
        Some('ь')
    } else if c == ',' {
        Some('б')
    } else if c == '.' {
        Some('ю')
    } else if c == '/' {
        Some('.')
    } else if c == '`' {
        Some('ё')
    } else {
        None
    }}

/// The Cyrillic-to-Latin table: the functional inverse of `forward`,
/// written out entry by entry (`lemma_reverse_inverts_forward` proves
/// that the two tables agree).
pub open spec fn reverse(c: char) -> Option<char> {
    if c == '"' {
        Some('@')
    } else if c == '№' {
        Some('#')
    } else if c == ';' {
        Some('$')
    } else if c == ':' {
        Some('^')
    } else if c == '?' {
        Some('&')
    } else if c == 'Й' {
        Some('Q')
    } else if c == 'Ц' {
        Some('W')
    } else if c == 'У' {
        Some('E')
    } else if c == 'К' {
        Some('R')
    } else if c == 'Е' {
        Some('T')
    } else if c == 'Н' {
        Some('Y')
    } else if c == 'Г' {
        Some('U')
    } else if c == 'Ш' {
        Some('I')
    } else if c == 'Щ' {
        Some('O')
    } else if c == 'З' {
        Some('P')
    } else if c == 'Х' {
        Some('{')
    } else if c == 'Ъ' {
        Some('}')
    } else if c == '/' {
        Some('|')
    } else if c == 'Ф' {
        Some('A')
    } else if c == 'Ы' {
        Some('S')
    } else if c == 'В' {
        Some('D')
    } else if c == 'А' {
        Some('F')
    } else if c == 'П' {
        Some('G')
    } else if c == 'Р' {
        Some('H')
    } else if c == 'О' {
        Some('J')
    } else if c == 'Л' {
        Some('K')
    } else if c == 'Д' {
        Some('L')
    } else if c == 'Ж' {
        Some(':')
    } else if c == 'Э' {
        Some('"')
    } else if c == 'Я' {
        Some('Z')
    } else if c == 'Ч' {
        Some('X')
    } else if c == 'С' {
        Some('C')
    } else if c == 'М' {
        Some('V')
    } else if c == 'И' {
        Some('B')
    } else if c == 'Т' {
        Some('N')
    } else if c == 'Ь' {
        Some('M')
    } else if c == 'Б' {
        Some('<')
    } else if c == 'Ю' {
        Some('>')
    } else if c == ',' {
        Some('?')
    } else if c == 'Ё' {
        Some('~')
    } else if c == 'й' {
        Some('q')
    } else if c == 'ц' {
        Some('w')
    } else if c == 'у' {
        Some('e')
    } else if c == 'к' {
        Some('r')
    } else if c == 'е' {
        Some('t')
    } else if c == 'н' {
        Some('y')
    } else if c == 'г' {
        Some('u')
    } else if c == 'ш' {
        Some('i')
    } else if c == 'щ' {
        Some('o')
    } else if c == 'з' {
        Some('p')
    } else if c == 'х' {
        Some('[')
    } else if c == 'ъ' {
        Some(']')
    } else if c == 'ф' {
        Some('a')
    } else if c == 'ы' {
        Some('s')
    } else if c == 'в' {
        Some('d')
    } else if c == 'а' {
        Some('f')
    } else if c == 'п' {
        Some('g')
    } else if c == 'р' {
        Some('h')
    } else if c == 'о' {
        Some('j')
    } else if c == 'л' {
        Some('k')
    } else if c == 'д' {
        Some('l')
    } else if c == 'ж' {
        Some(';')
    } else if c == 'э' {
        Some('\'')
    } else if c == 'я' {
        Some('z')
    } else if c == 'ч' {
        Some('x')
    } else if c == 'с' {
        Some('c')
    } else if c == 'м' {
        Some('v')
    } else if c == 'и' {
        Some('b')
    } else if c == 'т' {
        Some('n')
    } else if c == 'ь' {
        Some('m')
    } else if c == 'б' {
        Some(',')
    } else if c == 'ю' {
        Some('.')
    } else if c == '.' {
        Some('/')
    } else if c == 'ё' {
        Some('`')
    } else {
        None
    }}

/// Looks a character up in the Latin-to-Cyrillic table.
pub fn forward_lookup(c: char) -> (r: Option<char>)
    ensures
        r == forward(c),
{
    if c == '@' {
        Some('"')
    } else if c == '#' {
        Some('№')
    } else if c == '$' {
        Some(';')
    } else if c == '^' {
        Some(':')
    } else if c == '&' {
        Some('?')
    } else if c == 'Q' {
        Some('Й')
    } else if c == 'W' {
        Some('Ц')
    } else if c == 'E' {
        Some('У')
    } else if c == 'R' {
        Some('К')
    } else if c == 'T' {
        Some('Е')
    } else if c == 'Y' {
        Some('Н')
    } else if c == 'U' {
        Some('Г')
    } else if c == 'I' {
        Some('Ш')
    } else if c == 'O' {
        Some('Щ')
    } else if c == 'P' {
        Some('З')
    } else if c == '{' {
        Some('Х')
    } else if c == '}' {
        Some('Ъ')
    } else if c == '|' {
        Some('/')
    } else if c == 'A' {
        Some('Ф')
    } else if c == 'S' {
        Some('Ы')
    } else if c == 'D' {
        Some('В')
    } else if c == 'F' {
        Some('А')
    } else if c == 'G' {
        Some('П')
    } else if c == 'H' {
        Some('Р')
    } else if c == 'J' {
        Some('О')
    } else if c == 'K' {
        Some('Л')
    } else if c == 'L' {
        Some('Д')
    } else if c == ':' {
        Some('Ж')
    } else if c == '"' {
        Some('Э')
    } else if c == 'Z' {
        Some('Я')
    } else if c == 'X' {
        Some('Ч')
    } else if c == 'C' {
        Some('С')
    } else if c == 'V' {
        Some('М')
    } else if c == 'B' {
        Some('И')
    } else if c == 'N' {
        Some('Т')
    } else if c == 'M' {
        Some('Ь')
    } else if c == '<' {
        Some('Б')
    } else if c == '>' {
        Some('Ю')
    } else if c == '?' {
        Some(',')
    } else if c == '~' {
        Some('Ё')
    } else if c == 'q' {
        Some('й')
    } else if c == 'w' {
        Some('ц')
    } else if c == 'e' {
        Some('у')
    } else if c == 'r' {
        Some('к')
    } else if c == 't' {
        Some('е')
    } else if c == 'y' {
        Some('н')
    } else if c == 'u' {
        Some('г')
    } else if c == 'i' {
        Some('ш')
    } else if c == 'o' {
        Some('щ')
    } else if c == 'p' {
        Some('з')
    } else if c == '[' {
        Some('х')
    } else if c == ']' {
        Some('ъ')
    } else if c == 'a' {
        Some('ф')
    } else if c == 's' {
        Some('ы')
    } else if c == 'd' {
        Some('в')
    } else if c == 'f' {
        Some('а')
    } else if c == 'g' {
        Some('п')
    } else if c == 'h' {
        Some('р')
    } else if c == 'j' {
        Some('о')
    } else if c == 'k' {
        Some('л')
    } else if c == 'l' {
        Some('д')
    } else if c == ';' {
        Some('ж')
    } else if c == '\'' {
        Some('э')
    } else if c == 'z' {
        Some('я')
    } else if c == 'x' {
        Some('ч')
    } else if c == 'c' {
        Some('с')
    } else if c == 'v' {
        Some('м')
    } else if c == 'b' {
        Some('и')
    } else if c == 'n' {
        Some('т')
    } else if c == 'm' {
        Some('ь')
    } else if c == ',' {
        Some('б')
    } else if c == '.' {
        Some('ю')
    } else if c == '/' {
        Some('.')
    } else if c == '`' {
        Some('ё')
    } else {
        None
    }}

/// Looks a character up in the Cyrillic-to-Latin table.
pub fn reverse_lookup(c: char) -> (r: Option<char>)
    ensures
        r == reverse(c),
{
    if c == '"' {
        Some('@')
    } else if c == '№' {
        Some('#')
    } else if c == ';' {
        Some('$')
    } else if c == ':' {
        Some('^')
    } else if c == '?' {
        Some('&')
    } else if c == 'Й' {
        Some('Q')
    } else if c == 'Ц' {
        Some('W')
    } else if c == 'У' {
        Some('E')
    } else if c == 'К' {
        Some('R')
    } else if c == 'Е' {
        Some('T')
    } else if c == 'Н' {
        Some('Y')
    } else if c == 'Г' {
        Some('U')
    } else if c == 'Ш' {
        Some('I')
    } else if c == 'Щ' {
        Some('O')
    } else if c == 'З' {
        Some('P')
    } else if c == 'Х' {
        Some('{')
    } else if c == 'Ъ' {
        Some('}')
    } else if c == '/' {
        Some('|')
    } else if c == 'Ф' {
        Some('A')
    } else if c == 'Ы' {
        Some('S')
    } else if c == 'В' {
        Some('D')
    } else if c == 'А' {
        Some('F')
    } else if c == 'П' {
        Some('G')
    } else if c == 'Р' {
        Some('H')
    } else if c == 'О' {
        Some('J')
    } else if c == 'Л' {
        Some('K')
    } else if c == 'Д' {
        Some('L')
    } else if c == 'Ж' {
        Some(':')
    } else if c == 'Э' {
        Some('"')
    } else if c == 'Я' {
        Some('Z')
    } else if c == 'Ч' {
        Some('X')
    } else if c == 'С' {
        Some('C')
    } else if c == 'М' {
        Some('V')
    } else if c == 'И' {
        Some('B')
    } else if c == 'Т' {
        Some('N')
    } else if c == 'Ь' {
        Some('M')
    } else if c == 'Б' {
        Some('<')
    } else if c == 'Ю' {
        Some('>')
    } else if c == ',' {
        Some('?')
    } else if c == 'Ё' {
        Some('~')
    } else if c == 'й' {
        Some('q')
    } else if c == 'ц' {
        Some('w')
    } else if c == 'у' {
        Some('e')
    } else if c == 'к' {
        Some('r')
    } else if c == 'е' {
        Some('t')
    } else if c == 'н' {
        Some('y')
    } else if c == 'г' {
        Some('u')
    } else if c == 'ш' {
        Some('i')
    } else if c == 'щ' {
        Some('o')
    } else if c == 'з' {
        Some('p')
    } else if c == 'х' {
        Some('[')
    } else if c == 'ъ' {
        Some(']')
    } else if c == 'ф' {
        Some('a')
    } else if c == 'ы' {
        Some('s')
    } else if c == 'в' {
        Some('d')
    } else if c == 'а' {
        Some('f')
    } else if c == 'п' {
        Some('g')
    } else if c == 'р' {
        Some('h')
    } else if c == 'о' {
        Some('j')
    } else if c == 'л' {
        Some('k')
    } else if c == 'д' {
        Some('l')
    } else if c == 'ж' {
        Some(';')
    } else if c == 'э' {
        Some('\'')
    } else if c == 'я' {
        Some('z')
    } else if c == 'ч' {
        Some('x')
    } else if c == 'с' {
        Some('c')
    } else if c == 'м' {
        Some('v')
    } else if c == 'и' {
        Some('b')
    } else if c == 'т' {
        Some('n')
    } else if c == 'ь' {
        Some('m')
    } else if c == 'б' {
        Some(',')
    } else if c == 'ю' {
        Some('.')
    } else if c == '.' {
        Some('/')
    } else if c == 'ё' {
        Some('`')
    } else {
        None
    }}

/// The two tables are inverse to each other; in particular `forward` is
/// injective over its domain.
pub proof fn lemma_reverse_inverts_forward(a: char, b: char)
    ensures
        forward(a) == Some(b) ==> reverse(b) == Some(a),
        reverse(b) == Some(a) ==> forward(a) == Some(b),
{
}

/// A character the forward table covers (a Latin-layout character).
pub open spec fn is_forward_key(c: char) -> bool {
    forward(c) is Some
}

/// A character only the reverse table covers (a Cyrillic-layout character
/// that is not also a Latin-layout one; a handful of punctuation marks sit
/// in both tables and count as Latin).
pub open spec fn is_reverse_only_key(c: char) -> bool {
    reverse(c) is Some && forward(c) is None
}

/// How many characters of `s` the forward table covers.
pub open spec fn count_forward(s: Seq<char>) -> nat
    decreases s.len(),
{
    if s.len() == 0 {
        0
    } else {
        count_forward(s.drop_last()) + if is_forward_key(s.last()) {
            1nat
        } else {
            0nat
        }
    }
}

/// How many characters of `s` only the reverse table covers.
pub open spec fn count_reverse_only(s: Seq<char>) -> nat
    decreases s.len(),
{
    if s.len() == 0 {
        0
    } else {
        count_reverse_only(s.drop_last()) + if is_reverse_only_key(s.last()) {
            1nat
        } else {
            0nat
        }
    }
}

/// The direction heuristic: the forward table is used only when strictly
/// more characters are Latin than Cyrillic; ties (the empty string among
/// them) fall to the reverse table.
pub open spec fn use_forward(s: Seq<char>) -> bool {
    count_forward(s) > count_reverse_only(s)
}

/// One character converted Latin-to-Cyrillic; characters outside the table
/// pass through unchanged.
pub open spec fn apply_forward(c: char) -> char {
    match forward(c) {
        Option::Some(d) => d,
        Option::None => c,
    }
}

/// One character converted Cyrillic-to-Latin; characters outside the table
/// pass through unchanged.
pub open spec fn apply_reverse(c: char) -> char {
    match reverse(c) {
        Option::Some(d) => d,
        Option::None => c,
    }
}

/// The whole conversion: pick a direction by the majority heuristic, then
/// map every character through the chosen table.
pub open spec fn convert_spec(s: Seq<char>) -> Seq<char> {
    if use_forward(s) {
        s.map_values(|c: char| apply_forward(c))
    } else {
        s.map_values(|c: char| apply_reverse(c))
    }
}

/// Relies on `String::push`: appends exactly one character at the end.
#[verifier::external_body]
fn push_char(s: &mut String, c: char)
    ensures
        final(s)@ == old(s)@.push(c),
{
    s.push(c)
}

/// Transliterates `text` between the two layouts, choosing the direction by
/// which alphabet dominates the input.
pub fn convert(text: String) -> (result: String)
    ensures
        result@ == convert_spec(text@),
{
    let s = text.as_str();
    let n: usize = s.unicode_len();
    let mut fwd: usize = 0;
    let mut rev: usize = 0;
    let mut i: usize = 0;
    while i < n
        invariant
            s@ == text@,
            n == text@.len(),
            i <= n,
            fwd == count_forward(text@.take(i as int)),
            rev == count_reverse_only(text@.take(i as int)),
            fwd <= i,
            rev <= i,
        decreases n - i,
    {
        let c = s.get_char(i);
        proof {
            assert(text@.take(i + 1 as int).drop_last() =~= text@.take(i as int));
            assert(text@.take(i + 1 as int).last() == c);
        }
        if forward_lookup(c).is_some() {
            fwd = fwd + 1;
        } else if reverse_lookup(c).is_some() {
            rev = rev + 1;
        }
        i = i + 1;
    }
    proof {
        assert(text@.take(n as int) =~= text@);
    }
    let use_fwd: bool = fwd > rev;
    let mut result = String::new();
    let mut j: usize = 0;
    while j < n
        invariant
            s@ == text@,
            n == text@.len(),
            j <= n,
            use_fwd == use_forward(text@),
            use_fwd ==> result@ == text@.take(j as int).map_values(|c: char| apply_forward(c)),
            !use_fwd ==> result@ == text@.take(j as int).map_values(|c: char| apply_reverse(c)),
        decreases n - j,
    {
        let c = s.get_char(j);
        let d = if use_fwd {
            match forward_lookup(c) {
                Option::Some(x) => x,
                Option::None => c,
            }
        } else {
            match reverse_lookup(c) {
                Option::Some(x) => x,
                Option::None => c,
            }
        };
        push_char(&mut result, d);
        proof {
            if use_fwd {
                assert(text@.take(j + 1 as int).map_values(|c: char| apply_forward(c)) =~= text@.take(
                    j as int,
                ).map_values(|c: char| apply_forward(c)).push(apply_forward(text@[j as int])));
            } else {
                assert(text@.take(j + 1 as int).map_values(|c: char| apply_reverse(c)) =~= text@.take(
                    j as int,
                ).map_values(|c: char| apply_reverse(c)).push(apply_reverse(text@[j as int])));
            }
        }
        j = j + 1;
    }
    proof {
        assert(text@.take(n as int) =~= text@);
    }
    result
}

proof fn lemma_counts_all_forward(s: Seq<char>)
    requires
        forall|i: int| 0 <= i < s.len() ==> is_forward_key(s[i]),
    ensures
        count_forward(s) == s.len(),
        count_reverse_only(s) == 0,
    decreases s.len(),
{
    if s.len() > 0 {
        assert(forall|i: int| 0 <= i < s.drop_last().len() ==> s.drop_last()[i] == s[i]);
        lemma_counts_all_forward(s.drop_last());
    }
}

proof fn lemma_counts_all_reverse_only(s: Seq<char>)
    requires
        forall|i: int| 0 <= i < s.len() ==> is_reverse_only_key(s[i]),
    ensures
        count_forward(s) == 0,
        count_reverse_only(s) == s.len(),
    decreases s.len(),
{
    if s.len() > 0 {
        assert(forall|i: int| 0 <= i < s.drop_last().len() ==> s.drop_last()[i] == s[i]);
        lemma_counts_all_reverse_only(s.drop_last());
    }
}

/// The strict-majority directionality rule: strictly more Cyrillic-only
/// characters convert Cyrillic-to-Latin, strictly more Latin characters
/// convert Latin-to-Cyrillic. (On a tie the reverse table is used, the
/// empty string included.)
pub proof fn lemma_directionality(s: Seq<char>)
    ensures
        count_reverse_only(s) > count_forward(s) ==> convert_spec(s) == s.map_values(
            |c: char| apply_reverse(c),
        ),
        count_forward(s) > count_reverse_only(s) ==> convert_spec(s) == s.map_values(
            |c: char| apply_forward(c),
        ),
        count_forward(s) <= count_reverse_only(s) ==> convert_spec(s) == s.map_values(
            |c: char| apply_reverse(c),
        ),
{
}

/// Characters outside both alphabets (digits, whitespace, emoji) pass
/// through conversion unchanged, whichever direction is chosen.
pub proof fn lemma_pass_through(s: Seq<char>, i: int)
    requires
        0 <= i < s.len(),
        forward(s[i]) is None,
        reverse(s[i]) is None,
    ensures
        convert_spec(s).len() == s.len(),
        convert_spec(s)[i] == s[i],
{
}

/// A Latin-table character whose Cyrillic image is not itself a key of the
/// Latin table. Every letter qualifies; the handful of punctuation keys
/// whose images are again punctuation keys (such as `'@'`, whose image `'"'`
/// the forward table also covers) do not, and for those the round trip
/// genuinely fails.
pub open spec fn maps_out_of_latin(c: char) -> bool {
    forward(c) is Some && forward(apply_forward(c)) is None
}

/// Round trip over the covered alphabet: a string of Latin-table characters
/// whose images leave the Latin table converts forward, and converting the
/// result brings back the original string.
pub proof fn lemma_round_trip(s: Seq<char>)
    requires
        forall|i: int| 0 <= i < s.len() ==> maps_out_of_latin(s[i]),
    ensures
        convert_spec(convert_spec(s)) == s,
{
    if s.len() == 0 {
        assert(convert_spec(s) =~= s);
    } else {
        lemma_counts_all_forward(s);
        assert(use_forward(s));
        let t = s.map_values(|c: char| apply_forward(c));
        assert forall|i: int| 0 <= i < t.len() implies is_reverse_only_key(t[i]) by {
            assert(forward(s[i]) == Some(t[i]));
            lemma_reverse_inverts_forward(s[i], t[i]);
        }
        lemma_counts_all_reverse_only(t);
        assert(!use_forward(t));
        let u = t.map_values(|c: char| apply_reverse(c));
        assert(convert_spec(t) == u);
        assert forall|i: int| 0 <= i < u.len() implies u[i] == s[i] by {
            assert(forward(s[i]) == Some(t[i]));
            lemma_reverse_inverts_forward(s[i], t[i]);
        }
        assert(u =~= s);
    }
}

} // verus!
