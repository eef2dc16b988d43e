use vstd::prelude::*;

use crate::JvmFunctionError;

verus! {

// ---------------------------------------------------------------------------
// Character classes of the class-declaration grammar.
//
// A class declaration is the keyword `class`, at least one whitespace
// character, then an identifier: a maximal run of word characters. The
// whitespace class is the Unicode white-space set. The word class is the
// ASCII word characters (letters, digits, underscore) together with every
// character above the ASCII range that is not whitespace: a deliberate
// over-approximation of the usual word class, chosen so that an identifier
// written in any script is captured whole. It admits, beyond the usual
// class, non-ASCII punctuation and symbols; source text whose declaration
// is followed by such characters is not a class declaration any compiler
// accepts, so nothing rests on that corner.
// ---------------------------------------------------------------------------

pub open spec fn is_lower_char(c: char) -> bool {
    97 <= c as u32 && c as u32 <= 122
}

pub open spec fn is_word_char(c: char) -> bool {
    ||| (97 <= c as u32 && c as u32 <= 122)
    ||| (65 <= c as u32 && c as u32 <= 90)
    ||| (48 <= c as u32 && c as u32 <= 57)
    ||| c as u32 == 95
    ||| (c as u32 >= 0x80 && !is_space_char(c))
}

pub open spec fn is_space_char(c: char) -> bool {
    ||| c as u32 == 32
    ||| (9 <= c as u32 && c as u32 <= 13)
    ||| c as u32 == 0x85
    ||| c as u32 == 0xA0
    ||| c as u32 == 0x1680
    ||| (0x2000 <= c as u32 && c as u32 <= 0x200A)
    ||| c as u32 == 0x2028
    ||| c as u32 == 0x2029
    ||| c as u32 == 0x202F
    ||| c as u32 == 0x205F
    ||| c as u32 == 0x3000
}

fn word_char(c: char) -> (b: bool)
    ensures
        b == is_word_char(c),
{
    let u = c as u32;
    (97 <= u && u <= 122) || (65 <= u && u <= 90) || (48 <= u && u <= 57) || u == 95 || (u >= 0x80
        && !space_char(c))
}

fn space_char(c: char) -> (b: bool)
    ensures
        b == is_space_char(c),
{
    let u = c as u32;
    u == 32 || (9 <= u && u <= 13) || u == 0x85 || u == 0xA0 || u == 0x1680 || (0x2000 <= u && u
        <= 0x200A) || u == 0x2028 || u == 0x2029 || u == 0x202F || u == 0x205F || u == 0x3000
}

// ---------------------------------------------------------------------------
// The match relation: where a class declaration starts, and what it captures.
// ---------------------------------------------------------------------------

/// The five characters of the keyword `class` stand at position `i`.
pub open spec fn class_kw_at(s: Seq<char>, i: int) -> bool {
    &&& 0 <= i
    &&& i + 5 <= s.len()
    &&& s[i] == 'c'
    &&& s[i + 1] == 'l'
    &&& s[i + 2] == 'a'
    &&& s[i + 3] == 's'
    &&& s[i + 4] == 's'
}

/// A class declaration matches at position `i`: the keyword, then at least
/// one whitespace character, then a word character that starts the captured
/// identifier.
pub open spec fn match_at(s: Seq<char>, i: int) -> bool {
    &&& class_kw_at(s, i)
    &&& exists|j: int|
        #![auto]
        i + 5 < j < s.len() && is_word_char(s[j]) && (forall|k: int|
            i + 5 <= k < j ==> is_space_char(s[k]))
}

/// The first position at or after `i` where a class declaration matches.
pub open spec fn first_match_from(s: Seq<char>, i: int) -> Option<int>
    decreases s.len() - i when 0 <= i
{
    if i >= s.len() {
        None
    } else if match_at(s, i) {
        Some(i)
    } else {
        first_match_from(s, i + 1)
    }
}

/// The first non-whitespace position at or after `j`.
pub open spec fn skip_spaces(s: Seq<char>, j: int) -> int
    decreases s.len() - j when 0 <= j <= s.len()
{
    if j >= s.len() {
        j
    } else if is_space_char(s[j]) {
        skip_spaces(s, j + 1)
    } else {
        j
    }
}

/// The first non-word position at or after `j`.
pub open spec fn word_end(s: Seq<char>, j: int) -> int
    decreases s.len() - j when 0 <= j <= s.len()
{
    if j >= s.len() {
        j
    } else if is_word_char(s[j]) {
        word_end(s, j + 1)
    } else {
        j
    }
}

/// The identifier captured by the first class declaration in `s`, if any.
pub open spec fn spec_class_name(s: Seq<char>) -> Option<Seq<char>> {
    match first_match_from(s, 0) {
        Option::None => Option::None,
        Option::Some(i) => {
            let j = skip_spaces(s, i + 5);
            Option::Some(s.subrange(j, word_end(s, j)))
        },
    }
}

proof fn lemma_skip_spaces(s: Seq<char>, j: int)
    requires
        0 <= j <= s.len(),
    ensures
        j <= skip_spaces(s, j) <= s.len(),
        forall|k: int| j <= k < skip_spaces(s, j) ==> is_space_char(s[k]),
        skip_spaces(s, j) == s.len() || !is_space_char(s[skip_spaces(s, j)]),
    decreases s.len() - j,
{
    if j < s.len() && is_space_char(s[j]) {
        lemma_skip_spaces(s, j + 1);
    }
}

proof fn lemma_word_end(s: Seq<char>, j: int)
    requires
        0 <= j <= s.len(),
    ensures
        j <= word_end(s, j) <= s.len(),
        forall|k: int| j <= k < word_end(s, j) ==> is_word_char(s[k]),
        word_end(s, j) == s.len() || !is_word_char(s[word_end(s, j)]),
    decreases s.len() - j,
{
    if j < s.len() && is_word_char(s[j]) {
        lemma_word_end(s, j + 1);
    }
}

/// While no position before `i` matches, the search from the start and the
/// search from `i` agree.
proof fn lemma_first_match_prefix(s: Seq<char>, i: int)
    requires
        0 <= i,
        forall|t: int| 0 <= t < i ==> !match_at(s, t),
    ensures
        first_match_from(s, 0) == first_match_from(s, i),
    decreases i,
{
    if i > 0 {
        lemma_first_match_prefix(s, i - 1);
    }
}

/// If no position at or after `i` matches, the search from `i` fails.
proof fn lemma_no_match_from(s: Seq<char>, i: int)
    requires
        0 <= i,
        forall|t: int| i <= t ==> !match_at(s, t),
    ensures
        first_match_from(s, i) is None,
    decreases s.len() - i,
{
    if i < s.len() {
        lemma_no_match_from(s, i + 1);
    }
}

/// A match needs the keyword, one space and one word character: seven
/// characters at least.
proof fn lemma_match_needs_room(s: Seq<char>, i: int)
    requires
        match_at(s, i),
    ensures
        0 <= i && i + 7 <= s.len(),
{
    let j = choose|j: int|
        #![auto]
        i + 5 < j < s.len() && is_word_char(s[j]) && (forall|k: int|
            i + 5 <= k < j ==> is_space_char(s[k]));
    assert(j >= i + 6);
}

fn chars_vec(s: &str) -> (r: Vec<char>)
    ensures
        r@ == s@,
{
    let n = s.unicode_len();
    let mut r: Vec<char> = Vec::new();
    let mut i: usize = 0;
    while i < n
        invariant
            n == s@.len(),
            i <= n,
            r@ == s@.subrange(0, i as int),
        decreases n - i,
    {
        let c = s.get_char(i);
        r.push(c);
        proof {
            assert(s@.subrange(0, i + 1) =~= s@.subrange(0, i as int) + seq![s@[i as int]]);
        }
        i = i + 1;
    }
    proof {
        assert(s@.subrange(0, n as int) =~= s@);
    }
    r
}

/// Finds the first class declaration in `code` and returns the declared
/// identifier.
pub fn find_class_name(code: &str) -> (r: Option<String>)
    ensures
        r is Some <==> spec_class_name(code@) is Some,
        r matches Some(name) ==> spec_class_name(code@) == Some(name@),
{
    let s = chars_vec(code);
    let n = s.len();
    if n < 7 {
        proof {
            assert forall|t: int| 0 <= t implies !match_at(code@, t) by {
                if match_at(code@, t) {
                    lemma_match_needs_room(code@, t);
                }
            }
            lemma_no_match_from(code@, 0);
        }
        return None;
    }
    let mut i: usize = 0;
    while i <= n - 7
        invariant
            s@ == code@,
            n == s@.len(),
            7 <= n,
            i <= n,
            forall|t: int| 0 <= t < i ==> !match_at(code@, t),
        decreases n - i,
    {
        let kw = s[i] == 'c' && s[i + 1] == 'l' && s[i + 2] == 'a' && s[i + 3] == 's' && s[i + 4]
            == 's' && space_char(s[i + 5]);
        if kw {
            let mut j: usize = i + 5;
            while j < n && space_char(s[j])
                invariant
                    s@ == code@,
                    n == s@.len(),
                    i + 5 <= j <= n,
                    forall|k: int| i + 5 <= k < j ==> is_space_char(code@[k]),
                decreases n - j,
            {
                j = j + 1;
            }
            if j < n && word_char(s[j]) {
                let mut k: usize = j + 1;
                while k < n && word_char(s[k])
                    invariant
                        s@ == code@,
                        n == s@.len(),
                        j < k <= n,
                        forall|t: int| j <= t < k ==> is_word_char(code@[t]),
                        is_word_char(code@[j as int]),
                    decreases n - k,
                {
                    k = k + 1;
                }
                proof {
                    assert(match_at(code@, i as int));
                    lemma_first_match_prefix(code@, i as int);
                    assert(first_match_from(code@, 0) == Some(i as int));
                    lemma_skip_spaces(code@, i + 5);
                    let sk = skip_spaces(code@, i + 5);
                    assert(sk == j as int) by {
                        if sk < j as int {
                            assert(is_space_char(code@[sk]));
                        }
                        if sk > j as int {
                            assert(is_space_char(code@[j as int]));
                        }
                    }
                    lemma_word_end(code@, j as int);
                    let we = word_end(code@, j as int);
                    assert(we == k as int) by {
                        if we < k as int {
                            assert(is_word_char(code@[we]));
                        }
                        if we > k as int {
                            assert(is_word_char(code@[k as int]));
                        }
                    }
                }
                let name = code.substring_char(j, k);
                return Some(name.to_owned());
            }
            proof {
                assert(!match_at(code@, i as int)) by {
                    if match_at(code@, i as int) {
                        let j2 = choose|j2: int|
                            #![auto]
                            i + 5 < j2 < code@.len() && is_word_char(code@[j2]) && (forall|k2: int|
                                i + 5 <= k2 < j2 ==> is_space_char(code@[k2]));
                        if j2 < j as int {
                            assert(is_space_char(code@[j2]));
                        } else if j2 == j as int {
                            assert(j < n);
                        } else {
                            assert(is_space_char(code@[j as int]));
                        }
                    }
                }
            }
        }
        i = i + 1;
    }
    proof {
        assert forall|t: int| 0 <= t implies !match_at(code@, t) by {
            if match_at(code@, t) {
                lemma_match_needs_room(code@, t);
            }
        }
        lemma_no_match_from(code@, 0);
    }
    None
}

// ---------------------------------------------------------------------------
// Package-name synthesis.
// ---------------------------------------------------------------------------

pub open spec fn spec_base_package() -> Seq<char> {
    "com.github.milenkovicm.generated"@
}

fn base_package() -> (r: &'static str)
    ensures
        r@ == spec_base_package(),
{
    "com.github.milenkovicm.generated"
}

/// Relies on `random_string::generate`: the result is `len` characters, each
/// drawn from `charset`.
#[verifier::external_body]
fn random_from_charset(len: usize, charset: &str) -> (r: String)
    requires
        charset@.len() > 0,
    ensures
        r@.len() == len,
        forall|i: int| 0 <= i < r@.len() ==> charset@.contains(#[trigger] r@[i]),
{
    random_string::generate(len, charset)
}

/// A freshly synthesized package name: the fixed base namespace, then a
/// segment `p` followed by six random lowercase letters.
pub open spec fn is_generated_package(p: Seq<char>) -> bool {
    exists|sfx: Seq<char>|
        #![auto]
        p == spec_base_package() + ".p"@ + sfx && sfx.len() == 6 && (forall|i: int|
            0 <= i < sfx.len() ==> is_lower_char(sfx[i]))
}

fn generate_package_name() -> (r: String)
    ensures
        is_generated_package(r@),
{
    let charset = "abcdefghijklmnopqrstuvwxyz";
    proof {
        reveal_strlit("abcdefghijklmnopqrstuvwxyz");
    }
    let sfx = random_from_charset(6, charset);
    let mut out = base_package().to_owned();
    out.append(".p");
    out.append(sfx.as_str());
    proof {
        assert(forall|i: int| 0 <= i < sfx@.len() ==> is_lower_char(#[trigger] sfx@[i]));
        assert(out@ == spec_base_package() + ".p"@ + sfx@);
    }
    out
}

// ---------------------------------------------------------------------------
// Source rewriting.
// ---------------------------------------------------------------------------

/// The rewritten source and fully-qualified name that `update_java_code`
/// produces for a given source text, class name and package name.
pub open spec fn rewritten_source(code: Seq<char>, pkg: Seq<char>) -> Seq<char> {
    "package "@ + pkg + ";\n"@ + code
}

pub open spec fn qualified_name(pkg: Seq<char>, cls: Seq<char>) -> Seq<char> {
    pkg + "."@ + cls
}

/// Synthesizes a fresh fully-qualified name for the class declared in
/// `java_code` and rewrites the source to declare the synthesized package.
/// Returns the rewritten source and the fully-qualified name.
pub fn update_java_code(java_code: &str) -> (r: Result<(String, String), JvmFunctionError>)
    ensures
        r is Ok <==> spec_class_name(java_code@) is Some,
        r matches Ok(p) ==> exists|pkg: Seq<char>|
            #![auto]
            is_generated_package(pkg) && p.0@ == rewritten_source(java_code@, pkg) && p.1@
                == qualified_name(pkg, spec_class_name(java_code@)->Some_0),
        r matches Err(e) ==> e is SourceParseError,
{
    let name = match find_class_name(java_code) {
        Some(name) => name,
        None => {
            return Err(JvmFunctionError::SourceParseError("Can't find class name".to_owned()));
        },
    };
    let pkg = generate_package_name();
    let mut fqn = pkg.clone();
    fqn.append(".");
    fqn.append(name.as_str());
    let mut code = "package ".to_owned();
    code.append(pkg.as_str());
    code.append(";\n");
    code.append(java_code);
    proof {
        assert(code@ == rewritten_source(java_code@, pkg@));
        assert(fqn@ == qualified_name(pkg@, name@));
    }
    Ok((code, fqn))
}

} // verus!
