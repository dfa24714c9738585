//! The privilege-escalation shim builder: pure text composition that turns a
//! cached secret and a raw script body into a self-contained wrapped script.
//! The wrapper escalates privilege non-interactively through an askpass
//! helper, intercepts every invocation of the escalation tool by name, keeps
//! the escalation alive while the script runs, and removes all secret
//! material on every exit path. Nothing here spawns a process: the output is
//! text, handed to the runner.

use vstd::prelude::*;
use vstd::string::*;

verus! {

/// How one character of the secret reads once escaped for a single-quoted
/// shell literal: a quote becomes the close-quote / escaped-quote /
/// open-quote idiom `'\''`; every other character stands as itself.
pub open spec fn escape_one(c: char) -> Seq<char> {
    if c == '\'' {
        seq!['\'', '\\', '\'', '\'']
    } else {
        seq![c]
    }
}

/// The whole secret, escaped character by character for safe embedding
/// inside a single-quoted shell literal.
pub open spec fn escaped(s: Seq<char>) -> Seq<char>
    decreases s.len(),
{
    if s.len() == 0 {
        Seq::empty()
    } else {
        escape_one(s.first()) + escaped(s.drop_first())
    }
}

/// Escaping one more trailing character appends exactly its escape.
pub proof fn lemma_escaped_push(u: Seq<char>, c: char)
    ensures
        escaped(u.push(c)) == escaped(u) + escape_one(c),
    decreases u.len(),
{
    if u.len() == 0 {
        assert(u.push(c).drop_first() =~= Seq::<char>::empty());
        assert(u.push(c).first() == c);
        assert(escaped(u.push(c)) == escape_one(c) + escaped(Seq::<char>::empty()));
        assert(escaped(Seq::<char>::empty()) == Seq::<char>::empty());
        assert(escape_one(c) + Seq::<char>::empty() =~= escape_one(c));
        assert(escaped(u) == Seq::<char>::empty());
        assert(Seq::<char>::empty() + escape_one(c) =~= escape_one(c));
    } else {
        assert(u.push(c).drop_first() =~= u.drop_first().push(c));
        assert(u.push(c).first() == u.first());
        assert(escaped(u.push(c)) == escape_one(u.first()) + escaped(u.drop_first().push(c)));
        lemma_escaped_push(u.drop_first(), c);
        assert(escape_one(u.first()) + (escaped(u.drop_first()) + escape_one(c)) =~= (escape_one(
            u.first(),
        ) + escaped(u.drop_first())) + escape_one(c));
    }
}

/// Escapes a secret for embedding between single quotes: each `'` becomes
/// `'\''`, everything else is kept verbatim.
pub fn escape_secret(secret: &str) -> (r: String)
    ensures
        r@ == escaped(secret@),
{
    let n = secret.unicode_len();
    let mut out = String::new();
    let mut i: usize = 0;
    while i < n
        invariant
            n == secret@.len(),
            i <= n,
            out@ == escaped(secret@.take(i as int)),
        decreases n - i,
    {
        let c = secret.get_char(i);
        if c == '\'' {
            out.append("'\\''");
            proof {
                reveal_strlit("'\\''");
                assert(("'\\''")@ =~= escape_one(c));
            }
        } else {
            let piece = secret.substring_char(i, i + 1);
            proof {
                assert(piece@ =~= escape_one(c));
            }
            out.append(piece);
        }
        proof {
            assert(secret@.take(i as int + 1) =~= secret@.take(i as int).push(secret@[i as int]));
            lemma_escaped_push(secret@.take(i as int), secret@[i as int]);
        }
        i = i + 1;
    }
    proof {
        assert(secret@.take(n as int) =~= secret@);
    }
    out
}

/// Whether the body opens with an interpreter directive line.
pub open spec fn has_shebang(s: Seq<char>) -> bool {
    s.len() >= 2 && s[0] == '#' && s[1] == '!'
}

/// Index of the first newline in `s`, or `s.len()` when there is none.
pub open spec fn first_line_end(s: Seq<char>) -> int
    decreases s.len(),
{
    if s.len() == 0 {
        0
    } else if s[0] == '\n' {
        0
    } else {
        1 + first_line_end(s.drop_first())
    }
}

/// A scan that stops at position `i` on the first newline (or at the end)
/// has found exactly `first_line_end`.
pub proof fn lemma_first_line_end_at(s: Seq<char>, i: int)
    requires
        0 <= i <= s.len(),
        forall|j: int| 0 <= j < i ==> s[j] != '\n',
        i < s.len() ==> s[i] == '\n',
    ensures
        first_line_end(s) == i,
    decreases s.len(),
{
    if i == 0 {
    } else {
        assert(s[0] != '\n');
        assert forall|j: int| 0 <= j < i - 1 implies s.drop_first()[j] != '\n' by {
            assert(s.drop_first()[j] == s[j + 1]);
        }
        lemma_first_line_end_at(s.drop_first(), i - 1);
    }
}

/// The body as the wrapper embeds it: if it opens with `#!`, everything
/// after the directive line's newline (nothing, if that line never ends);
/// otherwise the body exactly as it came.
pub open spec fn stripped_body(s: Seq<char>) -> Seq<char> {
    if has_shebang(s) {
        if first_line_end(s) < s.len() {
            s.subrange(first_line_end(s) + 1, s.len() as int)
        } else {
            Seq::empty()
        }
    } else {
        s
    }
}

/// Strips a leading interpreter directive line if one is present; a body
/// without one is returned unchanged.
pub fn strip_shebang(body: &str) -> (r: String)
    ensures
        r@ == stripped_body(body@),
{
    let n = body.unicode_len();
    let has = n >= 2 && body.get_char(0) == '#' && body.get_char(1) == '!';
    if has == false {
        return body.to_owned();
    }
    let mut i: usize = 0;
    while i < n && body.get_char(i) != '\n'
        invariant
            n == body@.len(),
            i <= n,
            forall|j: int| 0 <= j < i ==> body@[j] != '\n',
        decreases n - i,
    {
        i = i + 1;
    }
    proof {
        lemma_first_line_end_at(body@, i as int);
    }
    if i < n {
        let rest = body.substring_char(i + 1, n);
        rest.to_owned()
    } else {
        String::new()
    }
}

/// Everything the wrapper runs before the secret's single-quoted literal:
/// its own interpreter directive, fail-fast and stream-merge setup, and the
/// creation of the private mode-700 temporary directory the shim files live
/// in. The open quote of the secret literal ends this part.
pub const PREAMBLE_HEAD: &'static str = r#"#!/bin/bash
set -e
exec 2>&1

# -- Passwordless sudo shim ---------------------------------------------------
# Create a private temp dir for the shim files
_SD=$(mktemp -d /tmp/.sd.XXXXXX)
chmod 700 "$_SD"

# 1. Password file (readable only by this process)
printf '%s\n' '"#;

/// Everything between the secret's close quote and the script body: the
/// mode-600 secret file, the askpass helper, the path shim that intercepts
/// every invocation of the escalation tool (delegating keep-alive probes
/// non-interactively and swallowing their failures), the eager fail-fast
/// validation, the 50-second keep-alive loop that stops when its parent
/// exits, and the exit trap that kills the loop and deletes the temp
/// directory on every exit path.
pub const PREAMBLE_TAIL: &'static str = r#"' > "$_SD/pw"
chmod 600 "$_SD/pw"

# 2. Askpass helper: sudo calls this instead of prompting a TTY
printf '#!/bin/bash\ncat "%s/pw"\n' "$_SD" > "$_SD/askpass"
chmod 700 "$_SD/askpass"
export SUDO_ASKPASS="$_SD/askpass"

# 3. Sudo shim: intercepts ALL sudo calls (including yay's internal ones)
#    -A  -> use askpass helper (no TTY needed)
#    -n  -> non-interactive keep-alive; try real sudo cache, silently succeed
#          if it fails (our wrapper's own keep-alive handles refresh)
printf '#!/bin/bash\nif [[ " $* " == *" -n "* ]]; then\n  /usr/bin/sudo -n "$@" 2>/dev/null || true\nelse\n  exec /usr/bin/sudo -A "$@"\nfi\n' > "$_SD/sudo"
chmod +x "$_SD/sudo"
export PATH="$_SD:$PATH"

# Validate password upfront (fails fast if wrong)
/usr/bin/sudo -A -v

# Keep sudo timestamp alive every 50 s
while true; do sleep 50; kill -0 "$$" 2>/dev/null || exit; /usr/bin/sudo -A -v 2>/dev/null; done &
trap "kill $! 2>/dev/null; rm -rf '$_SD'" EXIT
# -----------------------------------------------------------------------------

"#;

/// The whole wrapped script: preamble head, the escaped secret inside its
/// single-quoted literal, preamble tail, then the (shebang-stripped) body
/// and a final newline.
pub open spec fn wrapped_script_spec(secret: Seq<char>, body: Seq<char>) -> Seq<char> {
    PREAMBLE_HEAD@ + escaped(secret) + PREAMBLE_TAIL@ + stripped_body(body) + seq!['\n']
}

/// Builds the wrapped script for a cached secret and a raw body: pure text
/// composition, deterministic, no side effect.
pub fn build_wrapped(secret: &str, body: &str) -> (r: String)
    ensures
        r@ == wrapped_script_spec(secret@, body@),
{
    let mut out = String::from_str(PREAMBLE_HEAD);
    let esc = escape_secret(secret);
    out.append(esc.as_str());
    out.append(PREAMBLE_TAIL);
    let stripped = strip_shebang(body);
    out.append(stripped.as_str());
    out.append("\n");
    proof {
        reveal_strlit("\n");
        assert(out@ =~= wrapped_script_spec(secret@, body@));
    }
    out
}

/// Determinism law for shim construction: the wrapped text is a function of
/// the secret and the body alone, so two builds on the same input emit
/// identical text. (The private temp directory is named by `mktemp` when
/// the wrapped script *runs*, not when it is built, so even that line is
/// identical across builds.)
pub proof fn lemma_build_deterministic(
    secret: Seq<char>,
    body: Seq<char>,
    r1: Seq<char>,
    r2: Seq<char>,
)
    requires
        r1 == wrapped_script_spec(secret, body),
        r2 == wrapped_script_spec(secret, body),
    ensures
        r1 == r2,
{
}

/// Shebang law: the wrapped script carries the body right after the
/// preamble — a body that opened with `#!` contributes exactly what
/// followed its directive line, and a body without a directive stands
/// character-for-character unchanged.
pub proof fn lemma_body_embedded(secret: Seq<char>, body: Seq<char>)
    ensures
        ({
            let w = wrapped_script_spec(secret, body);
            let pre = (PREAMBLE_HEAD@.len() + escaped(secret).len() + PREAMBLE_TAIL@.len()) as int;
            &&& w.len() == pre + stripped_body(body).len() + 1
            &&& w.subrange(pre, pre + stripped_body(body).len()) == stripped_body(body)
            &&& !has_shebang(body) ==> w.subrange(pre, pre + body.len()) == body
        }),
{
    let w = wrapped_script_spec(secret, body);
    let pre = (PREAMBLE_HEAD@.len() + escaped(secret).len() + PREAMBLE_TAIL@.len()) as int;
    assert(w.subrange(pre, pre + stripped_body(body).len()) =~= stripped_body(body));
}

/// How the shell reads the escaped text back: scanning inside the
/// single-quoted literal, each `'\''` idiom denotes one literal quote and
/// every other character denotes itself.
pub open spec fn unescaped(e: Seq<char>) -> Seq<char>
    decreases e.len(),
{
    if e.len() == 0 {
        Seq::empty()
    } else if e.len() >= 4 && e.subrange(0, 4) == seq!['\'', '\\', '\'', '\''] {
        seq!['\''] + unescaped(e.subrange(4, e.len() as int))
    } else {
        seq![e.first()] + unescaped(e.drop_first())
    }
}

/// Escaping law: the shell's reading of the escaped secret yields back
/// exactly the secret, quotes included — embedding is lossless and the
/// secret stays inert to shell metacharacters.
pub proof fn lemma_escape_round_trip(s: Seq<char>)
    ensures
        unescaped(escaped(s)) == s,
    decreases s.len(),
{
    if s.len() == 0 {
    } else {
        let e = escaped(s);
        let rest = escaped(s.drop_first());
        assert(e == escape_one(s.first()) + rest);
        lemma_escape_round_trip(s.drop_first());
        if s.first() == '\'' {
            assert(e.len() >= 4);
            assert(e.subrange(0, 4) =~= seq!['\'', '\\', '\'', '\'']);
            assert(e.subrange(4, e.len() as int) =~= rest);
            assert(seq!['\''] + s.drop_first() =~= s);
        } else {
            assert(e.first() == s.first());
            if e.len() >= 4 && e.subrange(0, 4) == seq!['\'', '\\', '\'', '\''] {
                assert(e.subrange(0, 4)[0] == '\'');
                assert(false);
            }
            assert(e.drop_first() =~= rest);
            assert(seq![s.first()] + s.drop_first() =~= s);
        }
    }
}

/// Cleanup law, at the text level: every wrapped script, whatever the
/// secret and whatever the body, carries the preamble tail unchanged right
/// after the embedded secret — including the trap, registered on EXIT and
/// so run on success, failure and interruption alike, that kills the
/// keep-alive loop and removes the private temporary directory with every
/// file in it (secret file, askpass helper, shim). No body can displace or
/// alter that text; what the shell then does with it at run time lies
/// outside this crate.
pub proof fn lemma_cleanup_always_present(secret: Seq<char>, body: Seq<char>)
    ensures
        ({
            let w = wrapped_script_spec(secret, body);
            let k = (PREAMBLE_HEAD@.len() + escaped(secret).len()) as int;
            w.subrange(k, k + PREAMBLE_TAIL@.len()) == PREAMBLE_TAIL@
        }),
{
    let w = wrapped_script_spec(secret, body);
    let k = (PREAMBLE_HEAD@.len() + escaped(secret).len()) as int;
    assert(w.subrange(k, k + PREAMBLE_TAIL@.len()) =~= PREAMBLE_TAIL@);
}

/// Escaping is injective: two secrets with the same embedded form are the
/// same secret, so no secret can masquerade as another inside the wrapper.
pub proof fn lemma_escape_injective(a: Seq<char>, b: Seq<char>)
    requires
        escaped(a) == escaped(b),
    ensures
        a == b,
{
    lemma_escape_round_trip(a);
    lemma_escape_round_trip(b);
}

/// Embedding law: inside the wrapped script the escaped secret stands
/// between the head's open quote and the tail's close quote, and reading it
/// back as the shell does recovers the secret exactly.
pub proof fn lemma_secret_recoverable(secret: Seq<char>, body: Seq<char>)
    ensures
        ({
            let w = wrapped_script_spec(secret, body);
            let h = PREAMBLE_HEAD@.len() as int;
            &&& w.subrange(h, h + escaped(secret).len()) == escaped(secret)
            &&& unescaped(w.subrange(h, h + escaped(secret).len())) == secret
        }),
{
    let w = wrapped_script_spec(secret, body);
    let h = PREAMBLE_HEAD@.len() as int;
    assert(w.subrange(h, h + escaped(secret).len()) =~= escaped(secret));
    lemma_escape_round_trip(secret);
}

} // verus!
