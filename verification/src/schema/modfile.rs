//! Text logic of the module list file (`src/modules/mod.rs`) that code generation keeps
//! up to date, and of migration file names.
//!
//! Declarations are lines `pub mod name;`; comment lines never count as declarations.

use vstd::prelude::*;

use crate::schema::diff::{migration_number_spec, parse_digits_spec, parse_u32_spec};
use crate::text::{decimal_spec, digit_char, digits_value, is_digit, push_decimal, strip_plus};
use crate::text::{
    lemma_split_first, lemma_split_no_sep, lemma_split_nonempty, chars_of, chars_eq, ends_with, join_chars, join_spec, push_chars, push_str, split_chars, split_spec,
    starts_with, starts_with_spec, ends_with_spec, string_of, string_views, sub_chars, trim_chars, trim_end_spec,
    trim_spec, trim_start_spec,
};

verus! {

// ── Lines ────────────────────────────────────────────────────────────────

/// A line without one trailing carriage return.
pub open spec fn strip_cr(l: Seq<char>) -> Seq<char> {
    if l.len() > 0 && l.last() == '\r' {
        l.drop_last()
    } else {
        l
    }
}

/// The lines of a text, as `str::lines` yields them: split at `\n`, a `\r` before a `\n`
/// removed, and no final empty line after a last `\n`.
pub open spec fn lines_spec(s: Seq<char>) -> Seq<Seq<char>> {
    let p = split_spec(s, '\n');
    p.drop_last().map_values(|l: Seq<char>| strip_cr(l)) + (if p.last().len() > 0 { seq![p.last()] } else { Seq::empty() })
}

fn strip_cr_exec(l: &Vec<char>) -> (r: Vec<char>)
    ensures
        r@ == strip_cr(l@),
{
    let n = l.len();
    if n > 0 && l[n - 1] == '\r' {
        let r = sub_chars(l, 0, n - 1);
        assert(l@.subrange(0, n - 1) =~= l@.drop_last());
        r
    } else {
        sub_chars(l, 0, n)
    }
}

/// The lines of a text, as `str::lines` yields them.
pub fn lines_of(v: &[char]) -> (r: Vec<Vec<char>>)
    ensures
        r@.map_values(|l: Vec<char>| l@) == lines_spec(v@),
{
    let parts = split_chars(v, '\n');
    let ghost p = split_spec(v@, '\n');
    proof {
        lemma_split_nonempty(v@, '\n');
    }
    let n = parts.len();
    let mut out: Vec<Vec<char>> = Vec::new();
    let mut i: usize = 0;
    while i + 1 < n
        invariant
            n == parts@.len(),
            n >= 1,
            i + 1 <= n,
            p == parts@.map_values(|l: Vec<char>| l@),
            out@.map_values(|l: Vec<char>| l@) == p.drop_last().take(i as int).map_values(|l: Seq<char>| strip_cr(l)),
        decreases n - i,
    {
        let ghost prev = out@;
        let l = strip_cr_exec(&parts[i]);
        out.push(l);
        assert(out@ =~= prev.push(l));
        assert(p.drop_last().take(i + 1) =~= p.drop_last().take(i as int).push(p[i as int]));
        assert(parts@[i as int]@ == p[i as int]);
        assert(out@.map_values(|l: Vec<char>| l@) =~= prev.map_values(|l: Vec<char>| l@).push(l@));
        assert(out@.map_values(|l: Vec<char>| l@) =~= p.drop_last().take(i + 1).map_values(|l: Seq<char>| strip_cr(l)));
        i = i + 1;
    }
    assert(p.drop_last().take(i as int) =~= p.drop_last());
    let ghost before = out@;
    if parts[n - 1].len() > 0 {
        let last = sub_chars(&parts[n - 1], 0, parts[n - 1].len());
        assert(parts[n - 1]@.subrange(0, parts[n - 1]@.len() as int) =~= parts[n - 1]@);
        out.push(last);
        assert(out@ =~= before.push(last));
    }
    assert(out@.map_values(|l: Vec<char>| l@) =~= lines_spec(v@));
    out
}

// ── Declarations ─────────────────────────────────────────────────────────

/// A trimmed line that starts a comment: `//`, `/*` or `*`.
pub open spec fn is_comment_spec(t: Seq<char>) -> bool {
    starts_with_spec(t, "//"@) || starts_with_spec(t, "/*"@) || starts_with_spec(t, "*"@)
}

/// The declaration line of a module: `pub mod name;`.
pub open spec fn declaration_spec(name: Seq<char>) -> Seq<char> {
    "pub mod "@ + name + ";"@
}

/// Whether a line declares the module: not a comment, and trimmed equal to the declaration.
pub open spec fn declares(line: Seq<char>, name: Seq<char>) -> bool {
    !is_comment_spec(trim_spec(line)) && trim_spec(line) == declaration_spec(name)
}

/// Whether some line of the text declares the module.
pub open spec fn has_declaration_spec(content: Seq<char>, name: Seq<char>) -> bool {
    exists|i: int| 0 <= i < lines_spec(content).len() && declares(#[trigger] lines_spec(content)[i], name)
}

fn is_comment(t: &[char]) -> (r: bool)
    ensures
        r == is_comment_spec(t@),
{
    let a = chars_of("//");
    let b = chars_of("/*");
    let c = chars_of("*");
    starts_with(t, &a) || starts_with(t, &b) || starts_with(t, &c)
}

/// The declaration line of a module.
pub fn module_declaration(module_name: &str) -> (r: String)
    ensures
        r@ == declaration_spec(module_name@),
{
    let mut s = "pub mod ".to_owned();
    push_str(&mut s, module_name);
    push_str(&mut s, ";");
    s
}

fn line_declares(line: &[char], decl: &[char]) -> (r: bool)
    ensures
        r == (!is_comment_spec(trim_spec(line@)) && trim_spec(line@) == decl@),
{
    let t = trim_chars(line);
    !is_comment(&t) && chars_eq(&t, decl)
}

/// Whether the module list declares the module (comment lines are ignored).
pub fn has_module_declaration(content: &str, module_name: &str) -> (r: bool)
    ensures
        r == has_declaration_spec(content@, module_name@),
{
    let v = chars_of(content);
    let lines = lines_of(&v);
    let ghost ls = lines_spec(content@);
    let d = module_declaration(module_name);
    let dv = chars_of(d.as_str());
    let n = lines.len();
    let mut i: usize = 0;
    while i < n
        invariant
            n == lines@.len(),
            i <= n,
            ls == lines@.map_values(|l: Vec<char>| l@),
            ls == lines_spec(content@),
            dv@ == declaration_spec(module_name@),
            forall|j: int| 0 <= j < i ==> !declares(#[trigger] ls[j], module_name@),
        decreases n - i,
    {
        if line_declares(&lines[i], &dv) {
            assert(declares(ls[i as int], module_name@));
            return true;
        }
        i = i + 1;
    }
    false
}

/// The text with the declaration appended on a line of its own, ending in a newline.
pub open spec fn appended_spec(content: Seq<char>, name: Seq<char>) -> Seq<char> {
    (if ends_with_spec(content, "\n"@) { content } else { content + "\n"@ }) + declaration_spec(name) + "\n"@
}

/// The module list with the declaration of `module_name` added, or `None` when it is
/// already declared.
pub fn ensure_declaration(content: &str, module_name: &str) -> (r: Option<String>)
    ensures
        has_declaration_spec(content@, module_name@) ==> r is None,
        !has_declaration_spec(content@, module_name@) ==> (r matches Some(s) && s@ == appended_spec(
            content@,
            module_name@,
        )),
{
    if has_module_declaration(content, module_name) {
        return None;
    }
    let v = chars_of(content);
    let nl = chars_of("\n");
    let mut s = content.to_owned();
    if !ends_with(&v, &nl) {
        push_str(&mut s, "\n");
    }
    let d = module_declaration(module_name);
    push_str(&mut s, d.as_str());
    push_str(&mut s, "\n");
    Some(s)
}

/// Appending a text without the separator extends the last piece of a split.
proof fn lemma_split_append_plain(a: Seq<char>, b: Seq<char>, sep: char)
    requires
        !b.contains(sep),
    ensures
        split_spec(a + b, sep) == split_spec(a, sep).update(
            split_spec(a, sep).len() - 1,
            split_spec(a, sep).last() + b,
        ),
        split_spec(a + b, sep).len() == split_spec(a, sep).len(),
    decreases b.len(),
{
    lemma_split_nonempty(a, sep);
    if b.len() == 0 {
        assert(a + b =~= a);
        assert(split_spec(a, sep).last() + b =~= split_spec(a, sep).last());
        assert(split_spec(a, sep).update(split_spec(a, sep).len() - 1, split_spec(a, sep).last() + b)
            =~= split_spec(a, sep));
    } else {
        let b0 = b.drop_last();
        assert(!b0.contains(sep)) by {
            if b0.contains(sep) {
                let k = choose|k: int| 0 <= k < b0.len() && b0[k] == sep;
                assert(b[k] == sep);
            }
        }
        lemma_split_append_plain(a, b0, sep);
        assert((a + b).drop_last() =~= a + b0);
        assert((a + b).last() == b.last());
        assert(b.last() != sep) by {
            assert(b[b.len() - 1] == b.last());
        }
        let sa = split_spec(a, sep);
        let rest = split_spec(a + b0, sep);
        assert(split_spec(a + b, sep) == rest.update(rest.len() - 1, rest.last().push(b.last())));
        assert(rest.last() == sa.last() + b0);
        assert((sa.last() + b0).push(b.last()) =~= sa.last() + b);
        assert(split_spec(a + b, sep) =~= sa.update(sa.len() - 1, sa.last() + b));
    }
}

/// A declared module name stays on one line.
pub open spec fn single_line_name(name: Seq<char>) -> bool {
    !name.contains('\n')
}

/// After the declaration of a module is appended, the module list declares it; so a
/// second `ensure_declaration` leaves the list as it is.
pub proof fn law_appended_declaration_is_found(content: Seq<char>, name: Seq<char>)
    requires
        single_line_name(name),
    ensures
        has_declaration_spec(appended_spec(content, name), name),
{
    reveal_strlit("\n");
    reveal_strlit("pub mod ");
    reveal_strlit(";");
    reveal_strlit("//");
    reveal_strlit("/*");
    reveal_strlit("*");
    let cp = if ends_with_spec(content, "\n"@) { content } else { content + "\n"@ };
    let d = declaration_spec(name);
    assert(cp.len() > 0 && cp.last() == '\n') by {
        if ends_with_spec(content, "\n"@) {
            assert(content.skip(content.len() - 1) =~= "\n"@);
            assert(content.last() == content.skip(content.len() - 1)[0]);
        }
    }
    assert(!d.contains('\n')) by {
        if d.contains('\n') {
            let k = choose|k: int| 0 <= k < d.len() && d[k] == '\n';
            if 8 <= k < 8 + name.len() {
                assert(name[k - 8] == '\n');
            }
        }
    }
    lemma_split_nonempty(cp.drop_last(), '\n');
    assert(cp.drop_last().push('\n') =~= cp);
    let scp = split_spec(cp, '\n');
    assert(scp.last() == Seq::<char>::empty());
    lemma_split_append_plain(cp, d, '\n');
    let t1 = cp + d;
    assert(split_spec(t1, '\n').last() =~= d);
    let t = appended_spec(content, name);
    assert(t =~= t1.push('\n'));
    assert(t.drop_last() =~= t1);
    let st = split_spec(t, '\n');
    assert(st == split_spec(t1, '\n').push(Seq::<char>::empty()));
    let ls = lines_spec(t);
    assert(st.last().len() == 0);
    assert(ls =~= st.drop_last().map_values(|l: Seq<char>| strip_cr(l)));
    let k = st.drop_last().len() - 1;
    assert(st.drop_last()[k] == d);
    assert(d.last() == ';');
    assert(strip_cr(d) == d);
    assert(ls[k] == d);
    assert(d[0] == 'p');
    assert(trim_start_spec(d) == d);
    assert(trim_end_spec(d) == d);
    assert(trim_spec(d) == d);
    assert(!is_comment_spec(d)) by {
        assert(d.take(2)[0] == 'p');
        assert(d.take(1)[0] == 'p');
    }
    assert(declares(ls[k], name));
}

/// A line declares a module exactly when it is not a comment and, trimmed, it is
/// `pub mod <name>;`: whether a module list declares a module depends on its lines in
/// that way alone, so a module whose name merely starts another declared name (`post`
/// beside `post_meta`) is not declared.
pub proof fn law_declaration_is_the_whole_trimmed_line(content: Seq<char>, name: Seq<char>)
    ensures
        has_declaration_spec(content, name) <==> exists|i: int|
            0 <= i < lines_spec(content).len() && !is_comment_spec(trim_spec(#[trigger] lines_spec(content)[i]))
                && trim_spec(lines_spec(content)[i]) == "pub mod "@ + name + ";"@,
{
}

proof fn lemma_kept_lines_filter(ls: Seq<Seq<char>>, name: Seq<char>, pred: spec_fn(Seq<char>) -> bool)
    requires
        forall|l: Seq<char>|
            #[trigger] pred(l) == (is_comment_spec(trim_spec(l)) || trim_spec(l) != "pub mod "@ + name + ";"@),
    ensures
        kept_lines(ls, name) == ls.filter(pred),
    decreases ls.len(),
{
    reveal(Seq::filter);
    if ls.len() > 0 {
        lemma_kept_lines_filter(ls.drop_last(), name, pred);
        assert(pred(ls.last()) == (is_comment_spec(trim_spec(ls.last())) || trim_spec(ls.last()) != "pub mod "@ + name
            + ";"@));
    }
}

/// Removing a module's declaration keeps, in order, exactly the lines that are comments
/// or whose trimmed text is not `pub mod <name>;`; so the declaration of any other module
/// (such as `post_meta` when `post` is removed) stays.
pub proof fn law_removal_keeps_every_other_line(content: Seq<char>, name: Seq<char>)
    ensures
        kept_lines(lines_spec(content), name) == lines_spec(content).filter(
            |l: Seq<char>| is_comment_spec(trim_spec(l)) || trim_spec(l) != "pub mod "@ + name + ";"@,
        ),
{
    lemma_kept_lines_filter(
        lines_spec(content),
        name,
        |l: Seq<char>| is_comment_spec(trim_spec(l)) || trim_spec(l) != "pub mod "@ + name + ";"@,
    );
}

/// The lines that removing a declaration keeps: comments and every other line.
pub open spec fn kept_lines(ls: Seq<Seq<char>>, name: Seq<char>) -> Seq<Seq<char>>
    decreases ls.len(),
{
    if ls.len() == 0 {
        Seq::empty()
    } else {
        let rest = kept_lines(ls.drop_last(), name);
        let l = ls.last();
        if is_comment_spec(trim_spec(l)) || trim_spec(l) != declaration_spec(name) {
            rest.push(l)
        } else {
            rest
        }
    }
}

/// The module list without the declaration lines of the module, lines joined by `\n`.
pub fn remove_module_declaration(content: &str, module_name: &str) -> (r: String)
    ensures
        r@ == join_spec(kept_lines(lines_spec(content@), module_name@), "\n"@),
{
    let v = chars_of(content);
    let lines = lines_of(&v);
    let ghost ls = lines_spec(content@);
    let d = module_declaration(module_name);
    let dv = chars_of(d.as_str());
    let mut kept: Vec<Vec<char>> = Vec::new();
    let n = lines.len();
    let mut i: usize = 0;
    while i < n
        invariant
            n == lines@.len(),
            i <= n,
            ls == lines@.map_values(|l: Vec<char>| l@),
            dv@ == declaration_spec(module_name@),
            kept@.map_values(|l: Vec<char>| l@) == kept_lines(ls.take(i as int), module_name@),
        decreases n - i,
    {
        let ghost prev = kept@;
        assert(ls.take(i + 1).drop_last() =~= ls.take(i as int));
        assert(ls.take(i + 1).last() == ls[i as int]);
        let t = trim_chars(&lines[i]);
        if is_comment(&t) || !chars_eq(&t, &dv) {
            let l = sub_chars(&lines[i], 0, lines[i].len());
            assert(lines[i as int]@.subrange(0, lines[i as int]@.len() as int) =~= lines[i as int]@);
            kept.push(l);
            assert(kept@ =~= prev.push(l));
            assert(kept@.map_values(|l: Vec<char>| l@) =~= prev.map_values(|l: Vec<char>| l@).push(l@));
        }
        i = i + 1;
    }
    assert(ls.take(n as int) =~= ls);
    let sep = chars_of("\n");
    join_chars(&kept, &sep)
}

/// No piece of a split holds the separator.
proof fn lemma_split_pieces_lack_sep(s: Seq<char>, sep: char)
    ensures
        forall|i: int| 0 <= i < split_spec(s, sep).len() ==> !(#[trigger] split_spec(s, sep)[i]).contains(sep),
    decreases s.len(),
{
    if s.len() > 0 {
        let t = s.drop_last();
        lemma_split_pieces_lack_sep(t, sep);
        lemma_split_nonempty(t, sep);
        let rest = split_spec(t, sep);
        if s.last() != sep {
            let l = rest.last().push(s.last());
            assert(!l.contains(sep)) by {
                if l.contains(sep) {
                    let k = choose|k: int| 0 <= k < l.len() && l[k] == sep;
                    if k < rest.last().len() {
                        assert(rest[rest.len() - 1][k] == sep);
                    }
                }
            }
        }
    }
}

/// Joining pieces without the separator by it, then splitting at it, gives the pieces.
proof fn lemma_split_join(ps: Seq<Seq<char>>, sep: char)
    requires
        ps.len() >= 1,
        forall|i: int| 0 <= i < ps.len() ==> !(#[trigger] ps[i]).contains(sep),
    ensures
        split_spec(join_spec(ps, seq![sep]), sep) == ps,
    decreases ps.len(),
{
    if ps.len() == 1 {
        lemma_split_no_sep(ps[0], sep);
        assert(split_spec(join_spec(ps, seq![sep]), sep) =~= ps);
    } else {
        let front = ps.drop_last();
        lemma_split_join(front, sep);
        let j0 = join_spec(front, seq![sep]);
        let j1 = j0 + seq![sep];
        assert(j1.drop_last() =~= j0);
        assert(split_spec(j1, sep) == split_spec(j0, sep).push(Seq::<char>::empty()));
        assert(!ps.last().contains(sep)) by {
            assert(ps[ps.len() - 1] == ps.last());
        }
        lemma_split_append_plain(j1, ps.last(), sep);
        assert(join_spec(ps, seq![sep]) == j1 + ps.last());
        let sj1 = split_spec(j1, sep);
        assert(sj1.last() + ps.last() =~= ps.last());
        assert(split_spec(join_spec(ps, seq![sep]), sep) =~= ps);
    }
}

/// Appending a whitespace character does not change what trimming at the start keeps,
/// beyond that character itself.
proof fn lemma_trim_start_push(y: Seq<char>, c: char)
    ensures
        trim_start_spec(y.push(c)) == (if trim_start_spec(y).len() == 0 {
            if crate::text::spec_is_whitespace(c) { Seq::<char>::empty() } else { seq![c] }
        } else {
            trim_start_spec(y).push(c)
        }),
    decreases y.len(),
{
    assert(trim_start_spec(Seq::<char>::empty()) == Seq::<char>::empty());
    if y.len() == 0 {
        assert(y.push(c) =~= seq![c]);
        assert(seq![c].drop_first() =~= Seq::<char>::empty());
        assert(trim_start_spec(y) == y);
        if crate::text::spec_is_whitespace(c) {
            assert(trim_start_spec(seq![c]) == trim_start_spec(Seq::<char>::empty()));
        } else {
            assert(trim_start_spec(seq![c]) == seq![c]);
        }
    } else if crate::text::spec_is_whitespace(y[0]) {
        lemma_trim_start_push(y.drop_first(), c);
        assert(y.push(c).drop_first() =~= y.drop_first().push(c));
        assert(y.push(c)[0] == y[0]);
        assert(trim_start_spec(y.push(c)) == trim_start_spec(y.drop_first().push(c)));
        assert(trim_start_spec(y) == trim_start_spec(y.drop_first()));
    } else {
        assert(y.push(c)[0] == y[0]);
        assert(trim_start_spec(y.push(c)) == y.push(c));
        assert(trim_start_spec(y) == y);
    }
}

/// A trailing carriage return makes no difference to a trimmed line.
proof fn lemma_trim_strip_cr(x: Seq<char>)
    ensures
        trim_spec(strip_cr(x)) == trim_spec(x),
{
    if x.len() > 0 && x.last() == '\r' {
        let y = x.drop_last();
        assert(y.push('\r') =~= x);
        lemma_trim_start_push(y, '\r');
        let ts = trim_start_spec(y);
        if ts.len() > 0 {
            assert(trim_start_spec(x) == ts.push('\r'));
            assert(ts.push('\r').drop_last() =~= ts);
            assert(trim_end_spec(ts.push('\r')) == trim_end_spec(ts));
        }
    }
}

/// What removing keeps holds no newline and does not declare the module.
proof fn lemma_kept_lines(ls: Seq<Seq<char>>, name: Seq<char>)
    requires
        forall|i: int| 0 <= i < ls.len() ==> !(#[trigger] ls[i]).contains('\n'),
    ensures
        forall|i: int|
            0 <= i < kept_lines(ls, name).len() ==> !(#[trigger] kept_lines(ls, name)[i]).contains('\n') && !declares(
                kept_lines(ls, name)[i],
                name,
            ),
    decreases ls.len(),
{
    if ls.len() > 0 {
        let front = ls.drop_last();
        assert forall|i: int| 0 <= i < front.len() implies !(#[trigger] front[i]).contains('\n') by {
            assert(front[i] == ls[i]);
        }
        lemma_kept_lines(front, name);
        assert(ls[ls.len() - 1] == ls.last());
        let rest = kept_lines(front, name);
        let k = kept_lines(ls, name);
        assert forall|i: int| 0 <= i < k.len() implies !(#[trigger] k[i]).contains('\n') && !declares(k[i], name) by {
            if i < rest.len() {
                assert(k[i] == rest[i]);
            } else {
                assert(k[i] == ls.last());
            }
        }
    }
}

/// Every line of a text is free of newlines.
proof fn lemma_lines_lack_newline(s: Seq<char>)
    ensures
        forall|i: int| 0 <= i < lines_spec(s).len() ==> !(#[trigger] lines_spec(s)[i]).contains('\n'),
{
    let p = split_spec(s, '\n');
    lemma_split_nonempty(s, '\n');
    lemma_split_pieces_lack_sep(s, '\n');
    let ls = lines_spec(s);
    assert forall|i: int| 0 <= i < ls.len() implies !(#[trigger] ls[i]).contains('\n') by {
        if i < p.len() - 1 {
            let piece = p[i];
            assert(ls[i] == strip_cr(piece));
            if strip_cr(piece).contains('\n') {
                let k = choose|k: int| 0 <= k < strip_cr(piece).len() && strip_cr(piece)[k] == '\n';
                assert(piece[k] == '\n');
            }
        } else {
            assert(ls[i] == p[p.len() - 1]);
        }
    }
}

/// After the declaration lines of a module are removed, the module list no longer
/// declares it.
pub proof fn law_removed_declaration_is_gone(content: Seq<char>, name: Seq<char>)
    ensures
        !has_declaration_spec(join_spec(kept_lines(lines_spec(content), name), "\n"@), name),
{
    reveal_strlit("\n");
    assert("\n"@ =~= seq!['\n']);
    let ls = lines_spec(content);
    lemma_lines_lack_newline(content);
    lemma_kept_lines(ls, name);
    let k = kept_lines(ls, name);
    let j = join_spec(k, "\n"@);
    if k.len() == 0 {
        assert(j =~= Seq::<char>::empty());
        assert(lines_spec(j) =~= Seq::<Seq<char>>::empty());
    } else {
        lemma_split_join(k, '\n');
        let out = lines_spec(j);
        assert forall|i: int| 0 <= i < out.len() implies !declares(#[trigger] out[i], name) by {
            if i < k.len() - 1 {
                assert(out[i] == strip_cr(k[i]));
                lemma_trim_strip_cr(k[i]);
            } else {
                assert(out[i] == k[k.len() - 1]);
            }
        }
    }
}

/// The module name that a trimmed line declares, if it is a declaration.
pub open spec fn declared_name(t: Seq<char>) -> Option<Seq<char>> {
    if !is_comment_spec(t) && starts_with_spec(t, "pub mod "@) && ends_with_spec(t, ";"@) && t.len() >= 9 {
        Some(trim_spec(t.subrange(8, t.len() - 1)))
    } else {
        None
    }
}

/// The declared module names of all lines, in order.
pub open spec fn declared_names_spec(ls: Seq<Seq<char>>) -> Seq<Seq<char>>
    decreases ls.len(),
{
    if ls.len() == 0 {
        Seq::empty()
    } else {
        let rest = declared_names_spec(ls.drop_last());
        match declared_name(trim_spec(ls.last())) {
            Some(n) => rest.push(n),
            None => rest,
        }
    }
}

/// The names of all modules that the module list declares, in order.
pub fn declared_module_names(content: &str) -> (r: Vec<String>)
    ensures
        string_views(r@) == declared_names_spec(lines_spec(content@)),
{
    let v = chars_of(content);
    let lines = lines_of(&v);
    let ghost ls = lines_spec(content@);
    let prefix = chars_of("pub mod ");
    let suffix = chars_of(";");
    let mut names: Vec<String> = Vec::new();
    let n = lines.len();
    let mut i: usize = 0;
    while i < n
        invariant
            n == lines@.len(),
            i <= n,
            ls == lines@.map_values(|l: Vec<char>| l@),
            prefix@ == "pub mod "@,
            suffix@ == ";"@,
            string_views(names@) == declared_names_spec(ls.take(i as int)),
        decreases n - i,
    {
        let ghost prev = names@;
        assert(ls.take(i + 1).drop_last() =~= ls.take(i as int));
        assert(ls.take(i + 1).last() == ls[i as int]);
        let t = trim_chars(&lines[i]);
        proof {
            reveal_strlit("pub mod ");
            reveal_strlit(";");
        }
        if !is_comment(&t) && starts_with(&t, &prefix) && ends_with(&t, &suffix) {
            assert(t@.len() >= 9) by {
                if t@.len() < 9 {
                    assert(t@.take(8)[7] == ' ');
                    assert(t@.skip(t@.len() - 1)[0] == ';');
                }
            }
            let inner = sub_chars(&t, 8, t.len() - 1);
            let name = trim_chars(&inner);
            let s = string_of(&name);
            names.push(s);
            assert(names@ =~= prev.push(s));
            assert(string_views(names@) =~= string_views(prev).push(s@));
        }
        i = i + 1;
    }
    assert(ls.take(n as int) =~= ls);
    names
}


// ── Migration file names ─────────────────────────────────────────────────

/// `s` left-padded with `0` to at least three characters, as `{:03}` formats.
pub open spec fn pad3_spec(s: Seq<char>) -> Seq<char> {
    if s.len() >= 3 {
        s
    } else {
        Seq::new((3 - s.len()) as nat, |i: int| '0') + s
    }
}

/// The name of a migration file: `NNN_create_<table>.sql` with the number zero-padded to
/// three digits.
pub open spec fn migration_file_name_spec(n: u32, table: Seq<char>) -> Seq<char> {
    pad3_spec(decimal_spec(n as nat)) + "_create_"@ + table + ".sql"@
}

/// The file name of a migration: `format!("{:03}_create_{}.sql", number, table)`.
pub fn migration_file_name(migration_number: u32, table_name: &str) -> (r: String)
    ensures
        r@ == migration_file_name_spec(migration_number, table_name@),
{
    let mut digits: Vec<char> = Vec::new();
    push_decimal(&mut digits, migration_number as u64);
    assert(digits@ =~= decimal_spec(migration_number as nat));
    let mut padded: Vec<char> = Vec::new();
    let len = digits.len();
    if len < 3 {
        let mut k: usize = 0;
        while k < 3 - len
            invariant
                len < 3,
                k <= 3 - len,
                padded@ == Seq::new(k as nat, |i: int| '0'),
            decreases 3 - len - k,
        {
            padded.push('0');
            assert(padded@ =~= Seq::new((k + 1) as nat, |i: int| '0'));
            k = k + 1;
        }
    }
    let mut s = string_of(&padded);
    push_chars(&mut s, &digits);
    assert(s@ =~= pad3_spec(decimal_spec(migration_number as nat)));
    push_str(&mut s, "_create_");
    push_str(&mut s, table_name);
    push_str(&mut s, ".sql");
    s
}


pub proof fn lemma_decimal(n: nat)
    ensures
        decimal_spec(n).len() >= 1,
        forall|i: int| 0 <= i < decimal_spec(n).len() ==> is_digit(#[trigger] decimal_spec(n)[i]),
        digits_value(decimal_spec(n)) == n,
    decreases n,
{
    if n >= 10 {
        lemma_decimal(n / 10);
        let d = decimal_spec(n);
        assert(d.drop_last() =~= decimal_spec(n / 10));
        assert(digit_char(n % 10) as u32 == 48 + n % 10);
        assert(d.last() == digit_char(n % 10));
        assert(digits_value(d) == digits_value(d.drop_last()) * 10 + ((d.last() as u32) - 48));
        assert((n / 10) * 10 + n % 10 == n) by (nonlinear_arith);
    } else {
        assert(digit_char(n) as u32 == 48 + n);
        let d = decimal_spec(n);
        assert(d.drop_last() =~= Seq::<char>::empty());
        assert(d.last() == digit_char(n));
        assert(digits_value(d) == digits_value(d.drop_last()) * 10 + ((d.last() as u32) - 48));
    }
}

proof fn lemma_zeros_value(k: nat, s: Seq<char>)
    ensures
        digits_value(Seq::new(k, |i: int| '0') + s) == digits_value(s),
    decreases s.len() + k,
{
    let z = Seq::new(k, |i: int| '0');
    if s.len() == 0 {
        assert(z + s =~= z);
        if k > 0 {
            lemma_zeros_value((k - 1) as nat, s);
            assert(z.drop_last() =~= Seq::new((k - 1) as nat, |i: int| '0'));
            assert(Seq::new((k - 1) as nat, |i: int| '0') + s =~= Seq::new((k - 1) as nat, |i: int| '0'));
        }
    } else {
        lemma_zeros_value(k, s.drop_last());
        assert((z + s).drop_last() =~= z + s.drop_last());
    }
}

/// Reading back the number of a migration file name gives the number it was made with.
pub proof fn law_migration_file_name_round_trip(migration_number: u32, table_name: Seq<char>)
    ensures
        migration_number_spec(migration_file_name_spec(migration_number, table_name)) == Some(migration_number),
{
    let n = migration_number as nat;
    let d = decimal_spec(n);
    lemma_decimal(n);
    let p = pad3_spec(d);
    let k: nat = if d.len() >= 3 { 0 } else { (3 - d.len()) as nat };
    assert(p =~= Seq::new(k, |i: int| '0') + d);
    lemma_zeros_value(k, d);
    assert(forall|i: int| 0 <= i < p.len() ==> is_digit(#[trigger] p[i])) by {
        assert forall|i: int| 0 <= i < p.len() implies is_digit(#[trigger] p[i]) by {
            if i >= k {
                assert(p[i] == d[i - k]);
            }
        }
    }
    reveal_strlit("_create_");
    reveal_strlit(".sql");
    let name = migration_file_name_spec(migration_number, table_name);
    assert(name =~= p + ("_create_"@ + table_name + ".sql"@));
    assert(ends_with_spec(name, ".sql"@)) by {
        assert(name.skip(name.len() - 4) =~= ".sql"@);
    }
    assert(name[p.len() as int] == '_');
    assert(forall|j: int| 0 <= j < p.len() ==> name[j] != '_') by {
        assert forall|j: int| 0 <= j < p.len() implies name[j] != '_' by {
            assert(name[j] == p[j]);
            assert(is_digit(p[j]));
        }
    }
    lemma_split_first(name, '_', p.len() as int);
    assert(name.take(p.len() as int) =~= p);
    assert(split_spec(name, '_')[0] == p);
    assert(p[0] != '+') by {
        assert(is_digit(p[0]));
    }
    assert(strip_plus(p) == p);
    assert(parse_digits_spec(p) == Some(migration_number));
}

} // verus!
