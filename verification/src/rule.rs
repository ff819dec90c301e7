//! The forwarding specification and the firewall program generator.
//!
//! `generate` turns a [`ForwardingSpec`] into the complete text of the
//! remote firewall program. Its contract pins the output down to the exact
//! character sequence [`rule_text`], so every property of the program text
//! (which table it declares, which protocol keyword it matches, which
//! destination it rewrites to) can be read off the specification.

use vstd::prelude::*;
use vstd::string::StrSliceExecFns;
use vstd::string::StringExecFns;

verus! {

/// Transport-layer protocol of the forwarded traffic.
#[derive(Clone, Copy, PartialEq, Eq, Structural, Debug)]
pub enum L4Mode {
    Udp,
    Tcp,
}

/// Canonical lowercase keyword of a protocol, as it appears in the
/// generated firewall program.
pub open spec fn mode_name_spec(m: L4Mode) -> Seq<char> {
    match m {
        L4Mode::Udp => "udp"@,
        L4Mode::Tcp => "tcp"@,
    }
}

impl L4Mode {
    /// Canonical lowercase name of the protocol.
    pub fn name(&self) -> (r: &'static str)
        ensures
            r@ == mode_name_spec(*self),
    {
        match self {
            L4Mode::Udp => "udp",
            L4Mode::Tcp => "tcp",
        }
    }
}

/// The character a decimal digit prints as.
pub open spec fn digit_char(d: nat) -> char
    recommends
        d < 10,
{
    if d == 0 {
        '0'
    } else if d == 1 {
        '1'
    } else if d == 2 {
        '2'
    } else if d == 3 {
        '3'
    } else if d == 4 {
        '4'
    } else if d == 5 {
        '5'
    } else if d == 6 {
        '6'
    } else if d == 7 {
        '7'
    } else if d == 8 {
        '8'
    } else {
        '9'
    }
}

/// Decimal rendering of a natural number, most significant digit first,
/// with no leading zeros (a single `'0'` for zero).
pub open spec fn dec_str(n: nat) -> Seq<char>
    decreases n,
{
    if n < 10 {
        seq![digit_char(n)]
    } else {
        dec_str(n / 10).push(digit_char(n % 10))
    }
}

fn digit_literal(d: u16) -> (r: &'static str)
    requires
        d < 10,
    ensures
        r@ == seq![digit_char(d as nat)],
{
    proof {
        reveal_strlit("0");
        reveal_strlit("1");
        reveal_strlit("2");
        reveal_strlit("3");
        reveal_strlit("4");
        reveal_strlit("5");
        reveal_strlit("6");
        reveal_strlit("7");
        reveal_strlit("8");
        reveal_strlit("9");
    }
    let r: &'static str = if d == 0 {
        "0"
    } else if d == 1 {
        "1"
    } else if d == 2 {
        "2"
    } else if d == 3 {
        "3"
    } else if d == 4 {
        "4"
    } else if d == 5 {
        "5"
    } else if d == 6 {
        "6"
    } else if d == 7 {
        "7"
    } else if d == 8 {
        "8"
    } else {
        "9"
    };
    proof {
        assert(r@ =~= seq![digit_char(d as nat)]);
    }
    r
}

fn push_dec(n: u16, out: &mut String)
    ensures
        final(out)@ == old(out)@ + dec_str(n as nat),
    decreases n,
{
    if n >= 10 {
        proof {
            assert(n / 10 < n) by (nonlinear_arith)
                requires
                    n >= 10,
            ;
        }
        push_dec(n / 10, out);
        let d = digit_literal(n % 10);
        out.append(d);
        proof {
            assert(dec_str(n as nat) =~= dec_str(n as nat / 10) + seq![
                digit_char(n as nat % 10),
            ]);
            assert(out@ =~= old(out)@ + dec_str(n as nat));
        }
    } else {
        let d = digit_literal(n);
        out.append(d);
        proof {
            assert(out@ =~= old(out)@ + dec_str(n as nat));
        }
    }
}

/// Decimal rendering of a 16-bit number.
pub fn u16_to_string(n: u16) -> (s: String)
    ensures
        s@ == dec_str(n as nat),
{
    let mut s = String::new();
    push_dec(n, &mut s);
    proof {
        assert(s@ =~= dec_str(n as nat));
    }
    s
}

/// The local destination of the redirect: one concrete IPv4 address and
/// port, already resolved. Resolution of a host name is a startup concern
/// of the surrounding binary; the library only ever sees the result.
#[derive(Clone, Copy, PartialEq, Eq, Structural, Debug)]
pub struct Ipv4Target {
    pub a: u8,
    pub b: u8,
    pub c: u8,
    pub d: u8,
    pub port: u16,
}

/// The `a.b.c.d:port` rendering of a local target.
pub open spec fn ipv4_target_str(t: Ipv4Target) -> Seq<char> {
    dec_str(t.a as nat) + "."@ + dec_str(t.b as nat) + "."@ + dec_str(t.c as nat) + "."@ + dec_str(
        t.d as nat,
    ) + ":"@ + dec_str(t.port as nat)
}

impl Ipv4Target {
    /// Renders the target as `a.b.c.d:port`.
    pub fn format(&self) -> (s: String)
        ensures
            s@ == ipv4_target_str(*self),
    {
        let mut s = String::new();
        push_dec(self.a as u16, &mut s);
        s.append(".");
        push_dec(self.b as u16, &mut s);
        s.append(".");
        push_dec(self.c as u16, &mut s);
        s.append(".");
        push_dec(self.d as u16, &mut s);
        s.append(":");
        push_dec(self.port, &mut s);
        proof {
            assert(s@ =~= ipv4_target_str(*self));
        }
        s
    }
}

/// A character that may appear in a rule identifier. The identifier is
/// interpolated into the generated program, so it is restricted to
/// characters that cannot alter the program's structure.
pub open spec fn ident_char(c: char) -> bool {
    ||| ('a' as int <= c as int && c as int <= 'z' as int)
    ||| ('A' as int <= c as int && c as int <= 'Z' as int)
    ||| ('0' as int <= c as int && c as int <= '9' as int)
    ||| c == '_'
    ||| c == '-'
}

/// A usable rule identifier: non-empty, and made only of ASCII letters,
/// digits, `_` and `-`.
pub open spec fn valid_identifier(s: Seq<char>) -> bool {
    s.len() > 0 && forall|i: int| 0 <= i < s.len() ==> ident_char(#[trigger] s[i])
}

/// Checks that a string is a usable rule identifier.
pub fn check_identifier(s: &str) -> (r: bool)
    ensures
        r == valid_identifier(s@),
{
    let n = s.unicode_len();
    let mut i: usize = 0;
    while i < n
        invariant
            i <= n,
            n == s@.len(),
            forall|j: int| 0 <= j < i ==> ident_char(#[trigger] s@[j]),
        decreases n - i,
    {
        let c = s.get_char(i);
        let u = c as u32;
        let ok = (97 <= u && u <= 122) || (65 <= u && u <= 90) || (48 <= u && u <= 57) || c == '_'
            || c == '-';
        if !ok {
            proof {
                assert(!ident_char(s@[i as int]));
            }
            return false;
        }
        i = i + 1;
    }
    n > 0
}

/// Everything that determines one forwarding rule: the name scoping the
/// remote table, the protocol, the remote port to expose, and the local
/// destination the traffic is rewritten to.
#[derive(Debug)]
pub struct ForwardingSpec {
    pub identifier: String,
    pub mode: L4Mode,
    pub remote_port: u16,
    pub local: Ipv4Target,
}

impl ForwardingSpec {
    /// A well-formed specification carries a usable identifier.
    pub open spec fn wf(self) -> bool {
        valid_identifier(self.identifier@)
    }

    /// Builds a forwarding specification, rejecting identifiers that could
    /// alter the structure of the generated firewall program.
    pub fn new(identifier: String, mode: L4Mode, remote_port: u16, local: Ipv4Target) -> (r:
        Option<ForwardingSpec>)
        ensures
            r is Some <==> valid_identifier(identifier@),
            r matches Some(f) ==> f.identifier@ == identifier@ && f.mode == mode && f.remote_port
                == remote_port && f.local == local && f.wf(),
    {
        if check_identifier(identifier.as_str()) {
            Some(ForwardingSpec { identifier, mode, remote_port, local })
        } else {
            None
        }
    }
}

/// The complete text of the firewall program derived from a forwarding
/// specification: the table named by the identifier is deleted and
/// redefined (so installing is idempotent), with a prerouting chain that
/// destination-NATs matching traffic to the local target and a
/// postrouting chain that masquerades.
pub open spec fn rule_text(f: ForwardingSpec) -> Seq<char> {
    "\ntable ip "@ + f.identifier@ + "\ndelete table "@ + f.identifier@ + "\ntable ip "@
        + f.identifier@
        + " {\n        chain prerouting {\n                type nat hook prerouting priority dstnat; policy accept;\n                "@
        + mode_name_spec(f.mode) + " dport "@ + dec_str(f.remote_port as nat) + " dnat to "@
        + ipv4_target_str(f.local)
        + "\n        }\n\n        chain postrouting {\n                type nat hook postrouting priority srcnat; policy accept;\n                masquerade\n        }\n}\n"@
}

/// Generates the firewall program for a forwarding specification.
pub fn generate(f: &ForwardingSpec) -> (r: String)
    requires
        f.wf(),
    ensures
        r@ == rule_text(*f),
{
    let mut s = String::new();
    s.append("\ntable ip ");
    s.append(f.identifier.as_str());
    s.append("\ndelete table ");
    s.append(f.identifier.as_str());
    s.append("\ntable ip ");
    s.append(f.identifier.as_str());
    s.append(
        " {\n        chain prerouting {\n                type nat hook prerouting priority dstnat; policy accept;\n                ",
    );
    s.append(f.mode.name());
    s.append(" dport ");
    let p = u16_to_string(f.remote_port);
    s.append(p.as_str());
    s.append(" dnat to ");
    let l = f.local.format();
    s.append(l.as_str());
    s.append(
        "\n        }\n\n        chain postrouting {\n                type nat hook postrouting priority srcnat; policy accept;\n                masquerade\n        }\n}\n",
    );
    proof {
        assert(s@ =~= rule_text(*f));
    }
    s
}

/// The generator is pure: two forwarding specifications that agree on all
/// observable fields produce identical program text.
pub proof fn lemma_rule_text_deterministic(f1: ForwardingSpec, f2: ForwardingSpec)
    requires
        f1.identifier@ == f2.identifier@,
        f1.mode == f2.mode,
        f1.remote_port == f2.remote_port,
        f1.local == f2.local,
    ensures
        rule_text(f1) == rule_text(f2),
{
}

/// Where the protocol keyword of the prerouting match begins inside the
/// generated program.
pub open spec fn match_keyword_start(f: ForwardingSpec) -> int {
    ("\ntable ip "@.len() + f.identifier@.len() + "\ndelete table "@.len() + f.identifier@.len()
        + "\ntable ip "@.len() + f.identifier@.len()
        + " {\n        chain prerouting {\n                type nat hook prerouting priority dstnat; policy accept;\n                "@.len())
        as int
}

/// The complete prerouting rule of the generated program:
/// `<protocol> dport <remote port> dnat to <local>`.
pub open spec fn match_clause(f: ForwardingSpec) -> Seq<char> {
    mode_name_spec(f.mode) + " dport "@ + dec_str(f.remote_port as nat) + " dnat to "@
        + ipv4_target_str(f.local)
}

/// The generated program contains, at the match position, the full
/// prerouting rule `<protocol> dport <remote port> dnat to <local>`, and
/// it opens with a declaration of the table named exactly by the
/// identifier.
pub proof fn lemma_rule_text_structure(f: ForwardingSpec)
    ensures
        ({
            let t = rule_text(f);
            let i = match_keyword_start(f);
            let i0 = "\ntable ip "@.len() as int;
            &&& 0 <= i
            &&& i + match_clause(f).len() <= t.len()
            &&& t.subrange(i, i + match_clause(f).len() as int) == match_clause(f)
            &&& t.subrange(i0, i0 + f.identifier@.len()) == f.identifier@
        }),
{
    let t = rule_text(f);
    let i = match_keyword_start(f);
    let mc = match_clause(f);
    let i0 = "\ntable ip "@.len() as int;
    assert forall|k: int| 0 <= k < mc.len() implies t[i + k] == mc[k] by {}
    assert(t.subrange(i, i + mc.len() as int) =~= mc);
    assert forall|k: int| 0 <= k < f.identifier@.len() implies t[i0 + k] == f.identifier@[k] by {}
    assert(t.subrange(i0, i0 + f.identifier@.len()) =~= f.identifier@);
}

/// The match keyword of the generated program equals the protocol's
/// canonical lowercase name, for every protocol.
pub proof fn lemma_match_keyword_is_mode_name(f: ForwardingSpec)
    ensures
        mode_name_spec(L4Mode::Udp) == "udp"@,
        mode_name_spec(L4Mode::Tcp) == "tcp"@,
        0 <= match_keyword_start(f),
        match_keyword_start(f) + mode_name_spec(f.mode).len() <= rule_text(f).len(),
        rule_text(f).subrange(
            match_keyword_start(f),
            match_keyword_start(f) + mode_name_spec(f.mode).len() as int,
        ) == mode_name_spec(f.mode),
{
    let t = rule_text(f);
    let i = match_keyword_start(f);
    let m = mode_name_spec(f.mode);
    assert forall|k: int| 0 <= k < m.len() implies t[i + k] == m[k] by {}
    assert(t.subrange(i, i + m.len() as int) =~= m);
}

} // verus!
