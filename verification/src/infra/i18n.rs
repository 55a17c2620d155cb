//! Language negotiation for requests: a `lang` cookie, else the `Accept-Language`
//! header, else the default language; every result is normalised to a supported code.

use vstd::prelude::*;

use crate::text::{
    ascii_lower_seq, ascii_lowercase, chars_eq, chars_of, lemma_split_first, lemma_split_nonempty, push_str,
    split_chars, split_spec, starts_with, starts_with_spec, string_of, sub_chars, trim_chars, trim_end_spec,
    trim_spec, trim_start_spec,
};

verus! {

/// The default language (the default of `users.language`).
pub const DEFAULT_LANG: &'static str = "zh";

/// The language of the current request, as the middleware records it.
#[derive(Clone, Debug)]
pub struct CurrentLanguage(pub String);

/// The normalised language code of a raw language string: `en` for `en` and `en-*`
/// (ASCII case and surrounding whitespace ignored), `zh` for everything else.
pub open spec fn normalize_lang_spec(raw: Seq<char>) -> Seq<char> {
    let lower = ascii_lower_seq(trim_spec(raw));
    if lower == "en"@ || starts_with_spec(lower, "en-"@) {
        "en"@
    } else {
        "zh"@
    }
}

/// Normalises a raw language string to a supported code (`zh` or `en`).
pub fn normalize_lang(raw: &str) -> (r: &'static str)
    ensures
        r@ == normalize_lang_spec(raw@),
{
    let t = trim_chars(&chars_of(raw));
    let lower = ascii_lowercase(&t);
    if chars_eq(&lower, &chars_of("en")) || starts_with(&lower, &chars_of("en-")) {
        "en"
    } else if chars_eq(&lower, &chars_of("zh")) || starts_with(&lower, &chars_of("zh-")) {
        "zh"
    } else {
        DEFAULT_LANG
    }
}

/// A cookie pair names the language: it starts with `lang=` (after trimming) and has a
/// non-empty value.
pub open spec fn lang_pair_value(pair: Seq<char>) -> Option<Seq<char>> {
    let p = trim_spec(pair);
    if starts_with_spec(p, "lang="@) && trim_spec(p.skip(5)).len() > 0 {
        Some(trim_spec(p.skip(5)))
    } else {
        None
    }
}

/// The value of the first `;`-separated pair of the cookie header that names a language.
pub open spec fn cookie_lang_spec(header: Seq<char>) -> Option<Seq<char>> {
    first_lang_value(split_spec(header, ';'))
}

/// The first language value among the pairs.
pub open spec fn first_lang_value(pairs: Seq<Seq<char>>) -> Option<Seq<char>>
    decreases pairs.len(),
{
    if pairs.len() == 0 {
        None
    } else {
        match lang_pair_value(pairs[0]) {
            Some(v) => Some(v),
            None => first_lang_value(pairs.drop_first()),
        }
    }
}

/// The language value of a `Cookie` header: the first `lang=` pair with a non-empty value.
fn cookie_lang_of(header: &str) -> (r: Option<String>)
    ensures
        match r {
            Some(v) => cookie_lang_spec(header@) == Some(v@),
            None => cookie_lang_spec(header@) is None,
        },
{
    let pairs = split_chars(&chars_of(header), ';');
    let ghost ps = split_spec(header@, ';');
    let prefix = chars_of("lang=");
    proof {
        reveal_strlit("lang=");
    }
    assert(ps.skip(0) =~= ps);
    let n = pairs.len();
    let mut i: usize = 0;
    while i < n
        invariant
            n == pairs@.len(),
            i <= n,
            ps == split_spec(header@, ';'),
            ps == pairs@.map_values(|p: Vec<char>| p@),
            prefix@ == "lang="@,
            "lang="@.len() == 5,
            first_lang_value(ps) == first_lang_value(ps.skip(i as int)),
        decreases n - i,
    {
        assert(ps.skip(i as int)[0] == pairs@[i as int]@);
        assert(ps.skip(i as int).drop_first() =~= ps.skip(i + 1));
        let p = trim_chars(&pairs[i]);
        if starts_with(&p, &prefix) {
            let rest = sub_chars(&p, 5, p.len());
            assert(rest@ =~= p@.skip(5));
            let v = trim_chars(&rest);
            if v.len() > 0 {
                return Some(string_of(&v));
            }
        }
        i = i + 1;
    }
    assert(ps.skip(n as int) =~= Seq::<Seq<char>>::empty());
    None
}

/// The language value that the `Cookie` header (if present and readable) holds.
pub fn extract_lang_from_cookie(cookie_header: Option<&str>) -> (r: Option<String>)
    ensures
        match cookie_header {
            None => r is None,
            Some(h) => match r {
                Some(v) => cookie_lang_spec(h@) == Some(v@),
                None => cookie_lang_spec(h@) is None,
            },
        },
{
    match cookie_header {
        Some(h) => cookie_lang_of(h),
        None => None,
    }
}

/// The first language code of an `Accept-Language` header: the first `,`-separated
/// entry without its `;q=` part, trimmed; none when that is empty.
pub open spec fn accept_language_spec(header: Seq<char>) -> Option<Seq<char>> {
    let first = trim_spec(split_spec(header, ',')[0]);
    let code = trim_spec(split_spec(first, ';')[0]);
    if code.len() == 0 {
        None
    } else {
        Some(code)
    }
}

/// The first language code that the `Accept-Language` header (if present and readable)
/// names.
pub fn extract_lang_from_accept_language(accept_language: Option<&str>) -> (r: Option<String>)
    ensures
        match accept_language {
            None => r is None,
            Some(h) => match r {
                Some(v) => accept_language_spec(h@) == Some(v@),
                None => accept_language_spec(h@) is None,
            },
        },
{
    let header = match accept_language {
        Some(h) => h,
        None => return None,
    };
    let entries = split_chars(&chars_of(header), ',');
    proof {
        lemma_split_nonempty(header@, ',');
    }
    assert(entries@.map_values(|p: Vec<char>| p@)[0] == entries@[0]@);
    let first = trim_chars(&entries[0]);
    let parts = split_chars(&first, ';');
    proof {
        lemma_split_nonempty(first@, ';');
    }
    assert(parts@.map_values(|p: Vec<char>| p@)[0] == parts@[0]@);
    let code = trim_chars(&parts[0]);
    if code.len() == 0 {
        return None;
    }
    Some(string_of(&code))
}

/// The language of a request: the cookie's, else the `Accept-Language` header's, else
/// the default, normalised.
pub open spec fn resolve_language_spec(cookie: Option<Seq<char>>, accept: Option<Seq<char>>) -> Seq<char> {
    let from_cookie = match cookie {
        Some(h) => cookie_lang_spec(h),
        None => None,
    };
    let from_accept = match accept {
        Some(h) => accept_language_spec(h),
        None => None,
    };
    let raw = match from_cookie {
        Some(v) => v,
        None => match from_accept {
            Some(v) => v,
            None => "zh"@,
        },
    };
    normalize_lang_spec(raw)
}

/// The view of an optional string slice.
pub open spec fn opt_str(o: Option<&str>) -> Option<Seq<char>> {
    match o {
        Some(s) => Some(s@),
        None => None,
    }
}

/// Resolves the language from the `Cookie` and `Accept-Language` header values:
/// cookie, then `Accept-Language`, then `zh`.
pub fn resolve_language(cookie_header: Option<&str>, accept_language: Option<&str>) -> (r: String)
    ensures
        r@ == resolve_language_spec(opt_str(cookie_header), opt_str(accept_language)),
{
    let raw = match extract_lang_from_cookie(cookie_header) {
        Some(v) => v,
        None => match extract_lang_from_accept_language(accept_language) {
            Some(v) => v,
            None => DEFAULT_LANG.to_owned(),
        },
    };
    normalize_lang(raw.as_str()).to_owned()
}

/// The `Set-Cookie` value that stores a language preference for a year.
pub open spec fn lang_cookie_spec(lang: Seq<char>) -> Seq<char> {
    "lang="@ + normalize_lang_spec(lang) + "; Max-Age=31536000; Path=/; SameSite=Lax"@
}

/// Builds the `Set-Cookie` value for a language preference; the language is normalised
/// first, so no other value reaches the cookie.
pub fn build_lang_cookie(lang: &str) -> (r: String)
    ensures
        r@ == lang_cookie_spec(lang@),
{
    let safe = normalize_lang(lang);
    let mut s = "lang=".to_owned();
    push_str(&mut s, safe);
    push_str(&mut s, "; Max-Age=31536000; Path=/; SameSite=Lax");
    s
}

/// Whatever the cookie and `Accept-Language` headers hold, the resolved language is a
/// supported code, `en` or `zh`.
pub proof fn law_resolved_language_is_supported(cookie: Option<Seq<char>>, accept: Option<Seq<char>>)
    ensures
        resolve_language_spec(cookie, accept) == "en"@ || resolve_language_spec(cookie, accept) == "zh"@,
{
}

/// The language recorded for a request, or the default when none was recorded.
pub fn current_lang(recorded: Option<&CurrentLanguage>) -> (r: String)
    ensures
        r@ == (match recorded {
            Some(l) => l.0@,
            None => "zh"@,
        }),
{
    match recorded {
        Some(l) => l.0.clone(),
        None => DEFAULT_LANG.to_owned(),
    }
}

/// Normalising is idempotent: a normalised code normalises to itself.
pub proof fn law_normalize_lang_is_idempotent(raw: Seq<char>)
    ensures
        normalize_lang_spec(normalize_lang_spec(raw)) == normalize_lang_spec(raw),
{
    reveal_strlit("en");
    reveal_strlit("zh");
    reveal_strlit("en-");
    let r = normalize_lang_spec(raw);
    assert(r.len() == 2);
    assert(trim_start_spec(r) == r);
    assert(trim_end_spec(r) == r);
    assert(ascii_lower_seq(r) =~= r);
    if r == "zh"@ {
        assert(r[0] != "en"@[0]);
    }
}

/// A language cookie that the service sets is read back as the language it stores:
/// whatever `Accept-Language` says, a request carrying that cookie resolves to the
/// normalised language.
pub proof fn law_language_cookie_is_read_back(lang: Seq<char>, accept: Option<Seq<char>>)
    ensures
        resolve_language_spec(Some(lang_cookie_spec(lang)), accept) == normalize_lang_spec(lang),
{
    reveal_strlit("en");
    reveal_strlit("zh");
    reveal_strlit("lang=");
    reveal_strlit("; Max-Age=31536000; Path=/; SameSite=Lax");
    let n = normalize_lang_spec(lang);
    let c = lang_cookie_spec(lang);
    let pair = "lang="@ + n;
    assert(n.len() == 2);
    assert(c.len() > 7);
    assert(c[7] == ';');
    assert forall|j: int| 0 <= j < 7 implies c[j] != ';' by {
        if j < 5 {
            assert(c[j] == "lang="@[j]);
        } else {
            assert(c[j] == n[j - 5]);
        }
    }
    lemma_split_first(c, ';', 7);
    assert(c.take(7) =~= pair);
    let pairs = split_spec(c, ';');
    assert(pairs[0] == pair);
    assert(trim_start_spec(pair) == pair);
    assert(trim_end_spec(pair) == pair) by {
        assert(pair.last() == n[1]);
    }
    assert(trim_spec(pair) == pair);
    assert(pair.take(5) =~= "lang="@);
    assert(pair.skip(5) =~= n);
    assert(trim_start_spec(n) == n);
    assert(trim_end_spec(n) == n);
    assert(lang_pair_value(pair) == Some(n));
    assert(cookie_lang_spec(c) == Some(n));
    law_normalize_lang_is_idempotent(lang);
}

} // verus!
