//! Replay flags, processor architectures and register contexts.
use vstd::prelude::*;
use vstd::std_specs::convert::FromSpecImpl;

use crate::error::Error;
use vstd::string::*;

verus! {

/// How a cursor replays the trace. `NoFlags` is the engine's default.
#[derive(Debug, Clone, Copy, PartialEq, Eq, Structural)]
pub enum ReplayFlags {
    NoFlags,
    ReplayOnlyCurrentThread,
    ReplayAllSegmentsWithoutFiltering,
    ReplaySegmentsSequentially,
}

/// The native value of each flag.
pub open spec fn flags_code(f: ReplayFlags) -> u32 {
    match f {
        ReplayFlags::NoFlags => 0,
        ReplayFlags::ReplayOnlyCurrentThread => 1,
        ReplayFlags::ReplayAllSegmentsWithoutFiltering => 2,
        ReplayFlags::ReplaySegmentsSequentially => 4,
    }
}

/// The native values that name a flag; any other value is not a flag of the engine.
pub open spec fn is_flags_code(v: u32) -> bool {
    v == 0 || v == 1 || v == 2 || v == 4
}

/// The text of a flag: its name, the engine's default being `None`.
pub open spec fn flags_name(f: ReplayFlags) -> Seq<char> {
    match f {
        ReplayFlags::NoFlags => "None"@,
        ReplayFlags::ReplayOnlyCurrentThread => "ReplayOnlyCurrentThread"@,
        ReplayFlags::ReplayAllSegmentsWithoutFiltering => "ReplayAllSegmentsWithoutFiltering"@,
        ReplayFlags::ReplaySegmentsSequentially => "ReplaySegmentsSequentially"@,
    }
}

impl ReplayFlags {
    /// Whether a native value names a flag.
    pub fn is_known_code(value: u32) -> (b: bool)
        ensures
            b == is_flags_code(value),
    {
        value == 0 || value == 1 || value == 2 || value == 4
    }

    /// The flag's name.
    pub fn to_string(&self) -> (s: String)
        ensures
            s@ == flags_name(*self),
    {
        match self {
            ReplayFlags::NoFlags => String::from_str("None"),
            ReplayFlags::ReplayOnlyCurrentThread => String::from_str("ReplayOnlyCurrentThread"),
            ReplayFlags::ReplayAllSegmentsWithoutFiltering => String::from_str("ReplayAllSegmentsWithoutFiltering"),
            ReplayFlags::ReplaySegmentsSequentially => String::from_str("ReplaySegmentsSequentially"),
        }
    }

    /// The flag whose native value is `value`.
    pub fn from_u32(value: u32) -> (f: ReplayFlags)
        requires
            is_flags_code(value),
        ensures
            flags_code(f) == value,
    {
        match value {
            0 => ReplayFlags::NoFlags,
            1 => ReplayFlags::ReplayOnlyCurrentThread,
            2 => ReplayFlags::ReplayAllSegmentsWithoutFiltering,
            _ => ReplayFlags::ReplaySegmentsSequentially,
        }
    }
}

impl Default for ReplayFlags {
    fn default() -> (f: ReplayFlags)
        ensures
            f == ReplayFlags::NoFlags,
    {
        ReplayFlags::NoFlags
    }
}

impl From<ReplayFlags> for u32 {
    fn from(val: ReplayFlags) -> (v: u32) {
        match val {
            ReplayFlags::NoFlags => 0,
            ReplayFlags::ReplayOnlyCurrentThread => 1,
            ReplayFlags::ReplayAllSegmentsWithoutFiltering => 2,
            ReplayFlags::ReplaySegmentsSequentially => 4,
        }
    }
}

impl FromSpecImpl<ReplayFlags> for u32 {
    open spec fn obeys_from_spec() -> bool {
        true
    }

    open spec fn from_spec(v: ReplayFlags) -> u32 {
        flags_code(v)
    }
}

/// Every flag's native value names a flag, and no other flag has that value: reading the
/// value back gives the same flag.
pub proof fn lemma_flags_code_round_trip(f: ReplayFlags)
    ensures
        is_flags_code(flags_code(f)),
        forall|g: ReplayFlags| flags_code(g) == flags_code(f) ==> g == f,
{
}

/// Each native value that names a flag is the native value of some flag.
pub proof fn lemma_flags_code_onto(v: u32)
    requires
        is_flags_code(v),
    ensures
        exists|f: ReplayFlags| flags_code(f) == v,
{
    if v == 0 {
        assert(flags_code(ReplayFlags::NoFlags) == v);
    } else if v == 1 {
        assert(flags_code(ReplayFlags::ReplayOnlyCurrentThread) == v);
    } else if v == 2 {
        assert(flags_code(ReplayFlags::ReplayAllSegmentsWithoutFiltering) == v);
    } else {
        assert(flags_code(ReplayFlags::ReplaySegmentsSequentially) == v);
    }
}

/// The native values of the flags are the engine's constants: no flags 0, only the current
/// thread 1, all segments without filtering 2, segments in sequence 4; exactly these four
/// values name a flag, each a different one.
pub proof fn lemma_flags_native_values()
    ensures
        flags_code(ReplayFlags::NoFlags) == 0,
        flags_code(ReplayFlags::ReplayOnlyCurrentThread) == 1,
        flags_code(ReplayFlags::ReplayAllSegmentsWithoutFiltering) == 2,
        flags_code(ReplayFlags::ReplaySegmentsSequentially) == 4,
        forall|v: u32| is_flags_code(v) <==> (v == 0 || v == 1 || v == 2 || v == 4),
        forall|f: ReplayFlags, g: ReplayFlags| f != g ==> flags_code(f) != flags_code(g),
{
}

/// Each flag is named as the engine's flags are: the default as `None`, the others by their
/// own names; distinct flags have distinct names.
pub proof fn lemma_flags_names()
    ensures
        flags_name(ReplayFlags::NoFlags) == "None"@,
        flags_name(ReplayFlags::ReplayOnlyCurrentThread) == "ReplayOnlyCurrentThread"@,
        flags_name(ReplayFlags::ReplayAllSegmentsWithoutFiltering) == "ReplayAllSegmentsWithoutFiltering"@,
        flags_name(ReplayFlags::ReplaySegmentsSequentially) == "ReplaySegmentsSequentially"@,
        forall|f: ReplayFlags, g: ReplayFlags| f != g ==> flags_name(f) != flags_name(g),
{
    reveal_strlit("None");
    reveal_strlit("ReplayOnlyCurrentThread");
    reveal_strlit("ReplayAllSegmentsWithoutFiltering");
    reveal_strlit("ReplaySegmentsSequentially");
    assert forall|f: ReplayFlags, g: ReplayFlags| f != g implies flags_name(f) != flags_name(g) by {
        assert(flags_name(f).len() != flags_name(g).len());
    }
}

/// The processor architectures whose register contexts the engine gives.
#[derive(Debug, Clone, Copy, PartialEq, Eq, Structural)]
pub enum ProcessorArchitecture {
    X64,
    X86,
}

/// The architecture that a processor architecture code names, if it is one of those.
pub open spec fn architecture_of(code: u16) -> Option<ProcessorArchitecture> {
    if code == 9 {
        Some(ProcessorArchitecture::X64)
    } else if code == 0 {
        Some(ProcessorArchitecture::X86)
    } else {
        None
    }
}

impl ProcessorArchitecture {
    /// The architecture of a processor architecture code; any code but those of x64 and x86
    /// is a conversion error.
    pub fn try_from_u16(value: u16) -> (res: Result<ProcessorArchitecture, Error>)
        ensures
            architecture_of(value) is Some ==> res == Ok::<ProcessorArchitecture, Error>(architecture_of(value).unwrap()),
            architecture_of(value) is None ==> (res matches Err(e) && e is ConversionError),
    {
        match value {
            9 => Ok(ProcessorArchitecture::X64),
            0 => Ok(ProcessorArchitecture::X86),
            _ => Err(Error::ConversionError),
        }
    }
}

/// The general registers of an x64 thread.
#[derive(Debug, Clone, Copy, PartialEq, Eq, Structural)]
pub struct Amd64Context {
    pub rax: u64,
    pub rbx: u64,
    pub rcx: u64,
    pub rdx: u64,
    pub rsi: u64,
    pub rdi: u64,
    pub rip: u64,
    pub rsp: u64,
    pub rbp: u64,
    pub r8: u64,
    pub r9: u64,
    pub r10: u64,
    pub r11: u64,
    pub r12: u64,
    pub r13: u64,
    pub r14: u64,
    pub r15: u64,
}

/// The general registers of an x86 thread.
#[derive(Debug, Clone, Copy, PartialEq, Eq, Structural)]
pub struct X86Context {
    pub eax: u32,
    pub ebx: u32,
    pub ecx: u32,
    pub edx: u32,
    pub esi: u32,
    pub edi: u32,
    pub eip: u32,
    pub esp: u32,
    pub ebp: u32,
}

/// The registers of a thread, by architecture.
#[derive(Debug, Clone, Copy, PartialEq, Eq, Structural)]
pub enum RegisterContext {
    X64(Amd64Context),
    X86(X86Context),
}

/// The lowercase hexadecimal digit of a value below 16.
pub open spec fn hex_digit(n: int) -> char {
    if n < 10 {
        (48 + n) as char
    } else {
        (87 + n) as char
    }
}

/// The `i`-th of the 16 hexadecimal digits of `v`, the most significant first.
pub open spec fn nibble_u64(v: u64, i: int) -> int {
    ((v >> ((60 - 4 * i) as u64)) & 0xf) as int
}

/// The `i`-th of the 8 hexadecimal digits of `v`, the most significant first.
pub open spec fn nibble_u32(v: u32, i: int) -> int {
    ((v >> ((28 - 4 * i) as u32)) & 0xf) as int
}

/// `v` in lowercase hexadecimal, zero-padded to 16 digits.
pub open spec fn hex_u64(v: u64) -> Seq<char> {
    Seq::new(16, |i: int| hex_digit(nibble_u64(v, i)))
}

/// `v` in lowercase hexadecimal, zero-padded to 8 digits.
pub open spec fn hex_u32(v: u32) -> Seq<char> {
    Seq::new(8, |i: int| hex_digit(nibble_u32(v, i)))
}

/// The text of an x64 context: three registers to a line, the last line two.
pub open spec fn amd64_text(c: Amd64Context) -> Seq<char> {
    "rax="@ + hex_u64(c.rax) + " rbx="@ + hex_u64(c.rbx) + " rcx="@ + hex_u64(c.rcx)
        + "\nrdx="@ + hex_u64(c.rdx) + " rsi="@ + hex_u64(c.rsi) + " rdi="@ + hex_u64(c.rdi)
        + "\nrip="@ + hex_u64(c.rip) + " rsp="@ + hex_u64(c.rsp) + " rbp="@ + hex_u64(c.rbp)
        + "\n r8="@ + hex_u64(c.r8) + "  r9="@ + hex_u64(c.r9) + " r10="@ + hex_u64(c.r10)
        + "\nr11="@ + hex_u64(c.r11) + " r12="@ + hex_u64(c.r12) + " r13="@ + hex_u64(c.r13)
        + "\nr14="@ + hex_u64(c.r14) + " r15="@ + hex_u64(c.r15)
}

/// The text of an x86 context: six registers on the first line, three and a space on the
/// second.
pub open spec fn x86_text(c: X86Context) -> Seq<char> {
    "eax="@ + hex_u32(c.eax) + " ebx="@ + hex_u32(c.ebx) + " ecx="@ + hex_u32(c.ecx)
        + " edx="@ + hex_u32(c.edx) + " esi="@ + hex_u32(c.esi) + " edi="@ + hex_u32(c.edi)
        + "\neip="@ + hex_u32(c.eip) + " esp="@ + hex_u32(c.esp) + " ebp="@ + hex_u32(c.ebp)
        + " "@
}

pub open spec fn context_text(ctx: RegisterContext) -> Seq<char> {
    match ctx {
        RegisterContext::X64(c) => amd64_text(c),
        RegisterContext::X86(c) => x86_text(c),
    }
}

/// The width in bytes of a pointer under a context's architecture.
pub open spec fn context_pointer_size(ctx: RegisterContext) -> usize {
    match ctx {
        RegisterContext::X64(_) => 8,
        RegisterContext::X86(_) => 4,
    }
}

/// Architecture code 9 is x64 and code 0 is x86; no other code names an architecture with a
/// register context.
pub proof fn lemma_architecture_codes()
    ensures
        architecture_of(9) == Some(ProcessorArchitecture::X64),
        architecture_of(0) == Some(ProcessorArchitecture::X86),
        forall|c: u16| c != 9 && c != 0 ==> architecture_of(c) is None,
{
}

/// Pointers are 8 bytes wide under x64 and 4 under x86.
pub proof fn lemma_pointer_sizes(a: Amd64Context, b: X86Context)
    ensures
        context_pointer_size(RegisterContext::X64(a)) == 8,
        context_pointer_size(RegisterContext::X86(b)) == 4,
{
}

/// Hexadecimal digits are '0' to '9' and then 'a' to 'f', each value its own digit.
pub proof fn lemma_hex_digits()
    ensures
        hex_digit(0) == '0',
        hex_digit(9) == '9',
        hex_digit(10) == 'a',
        hex_digit(15) == 'f',
        forall|n: int| 0 <= n < 10 ==> hex_digit(n) as int == '0' as int + n,
        forall|n: int| 10 <= n < 16 ==> hex_digit(n) as int == 'a' as int + (n - 10),
        forall|n: int, m: int| 0 <= n < 16 && 0 <= m < 16 && n != m ==> hex_digit(n) != hex_digit(m),
{
    assert forall|n: int, m: int| 0 <= n < 16 && 0 <= m < 16 && n != m implies hex_digit(n) != hex_digit(m) by {
        assert(hex_digit(n) as int != hex_digit(m) as int);
    }
}

/// An x64 context's text is 356 characters: "rax=" and then rax's 16 digits at its start,
/// r15's 16 digits at its end.
pub proof fn lemma_amd64_text_layout(c: Amd64Context)
    ensures
        amd64_text(c).len() == 356,
        amd64_text(c).subrange(0, 4) == "rax="@,
        amd64_text(c).subrange(4, 20) == hex_u64(c.rax),
        amd64_text(c).subrange(340, 356) == hex_u64(c.r15),
{
    reveal_strlit("rax=");
    reveal_strlit(" rbx=");
    reveal_strlit(" rcx=");
    reveal_strlit("\nrdx=");
    reveal_strlit(" rsi=");
    reveal_strlit(" rdi=");
    reveal_strlit("\nrip=");
    reveal_strlit(" rsp=");
    reveal_strlit(" rbp=");
    reveal_strlit("\n r8=");
    reveal_strlit("  r9=");
    reveal_strlit(" r10=");
    reveal_strlit("\nr11=");
    reveal_strlit(" r12=");
    reveal_strlit(" r13=");
    reveal_strlit("\nr14=");
    reveal_strlit(" r15=");
    assert(amd64_text(c).subrange(0, 4) =~= "rax="@);
    assert(amd64_text(c).subrange(4, 20) =~= hex_u64(c.rax));
    assert(amd64_text(c).subrange(340, 356) =~= hex_u64(c.r15));
}

/// An x86 context's text is 117 characters: "eax=" and then eax's 8 digits at its start,
/// and a space at its end.
pub proof fn lemma_x86_text_layout(c: X86Context)
    ensures
        x86_text(c).len() == 117,
        x86_text(c).subrange(0, 4) == "eax="@,
        x86_text(c).subrange(4, 12) == hex_u32(c.eax),
        x86_text(c)[116] == ' ',
{
    reveal_strlit("eax=");
    reveal_strlit(" ebx=");
    reveal_strlit(" ecx=");
    reveal_strlit(" edx=");
    reveal_strlit(" esi=");
    reveal_strlit(" edi=");
    reveal_strlit("\neip=");
    reveal_strlit(" esp=");
    reveal_strlit(" ebp=");
    reveal_strlit(" ");
    assert(x86_text(c).subrange(0, 4) =~= "eax="@);
    assert(x86_text(c).subrange(4, 12) =~= hex_u32(c.eax));
}

/// The one-character text of a hexadecimal digit.
fn hex_str(n: u64) -> (s: &'static str)
    requires
        n < 16,
    ensures
        s@ == seq![hex_digit(n as int)],
{
    if n == 0 {
        proof { reveal_strlit("0"); }
        "0"
    } else if n == 1 {
        proof { reveal_strlit("1"); }
        "1"
    } else if n == 2 {
        proof { reveal_strlit("2"); }
        "2"
    } else if n == 3 {
        proof { reveal_strlit("3"); }
        "3"
    } else if n == 4 {
        proof { reveal_strlit("4"); }
        "4"
    } else if n == 5 {
        proof { reveal_strlit("5"); }
        "5"
    } else if n == 6 {
        proof { reveal_strlit("6"); }
        "6"
    } else if n == 7 {
        proof { reveal_strlit("7"); }
        "7"
    } else if n == 8 {
        proof { reveal_strlit("8"); }
        "8"
    } else if n == 9 {
        proof { reveal_strlit("9"); }
        "9"
    } else if n == 10 {
        proof { reveal_strlit("a"); }
        "a"
    } else if n == 11 {
        proof { reveal_strlit("b"); }
        "b"
    } else if n == 12 {
        proof { reveal_strlit("c"); }
        "c"
    } else if n == 13 {
        proof { reveal_strlit("d"); }
        "d"
    } else if n == 14 {
        proof { reveal_strlit("e"); }
        "e"
    } else {
        proof { reveal_strlit("f"); }
        "f"
    }
}

fn push_hex_u64(out: &mut String, v: u64)
    ensures
        final(out)@ == old(out)@ + hex_u64(v),
{
    let ghost start = out@;
    let mut i: u64 = 0;
    while i < 16
        invariant
            i <= 16,
            out@ == start + hex_u64(v).take(i as int),
        decreases 16 - i,
    {
        let shift: u64 = 60 - 4 * i;
        let d: u64 = (v >> shift) & 0xf;
        assert(d < 16) by (bit_vector)
            requires
                d == (v >> shift) & 0xf,
        ;
        out.append(hex_str(d));
        assert(hex_u64(v).take(i + 1) == hex_u64(v).take(i as int).push(hex_digit(d as int)));
        i = i + 1;
    }
    assert(hex_u64(v).take(16) == hex_u64(v));
}

fn push_hex_u32(out: &mut String, v: u32)
    ensures
        final(out)@ == old(out)@ + hex_u32(v),
{
    let ghost start = out@;
    let mut i: u32 = 0;
    while i < 8
        invariant
            i <= 8,
            out@ == start + hex_u32(v).take(i as int),
        decreases 8 - i,
    {
        let shift: u32 = 28 - 4 * i;
        let d: u32 = (v >> shift) & 0xf;
        assert(d < 16) by (bit_vector)
            requires
                d == (v >> shift) & 0xf,
        ;
        out.append(hex_str(d as u64));
        assert(hex_u32(v).take(i + 1) == hex_u32(v).take(i as int).push(hex_digit(d as int)));
        i = i + 1;
    }
    assert(hex_u32(v).take(8) == hex_u32(v));
}

impl RegisterContext {
    /// The registers as text, each in zero-padded lowercase hexadecimal.
    pub fn to_string(&self) -> (s: String)
        ensures
            s@ == context_text(*self),
    {
        let mut out = String::new();
        match self {
            RegisterContext::X64(c) => {
                out.append("rax=");
                push_hex_u64(&mut out, c.rax);
                out.append(" rbx=");
                push_hex_u64(&mut out, c.rbx);
                out.append(" rcx=");
                push_hex_u64(&mut out, c.rcx);
                out.append("\nrdx=");
                push_hex_u64(&mut out, c.rdx);
                out.append(" rsi=");
                push_hex_u64(&mut out, c.rsi);
                out.append(" rdi=");
                push_hex_u64(&mut out, c.rdi);
                out.append("\nrip=");
                push_hex_u64(&mut out, c.rip);
                out.append(" rsp=");
                push_hex_u64(&mut out, c.rsp);
                out.append(" rbp=");
                push_hex_u64(&mut out, c.rbp);
                out.append("\n r8=");
                push_hex_u64(&mut out, c.r8);
                out.append("  r9=");
                push_hex_u64(&mut out, c.r9);
                out.append(" r10=");
                push_hex_u64(&mut out, c.r10);
                out.append("\nr11=");
                push_hex_u64(&mut out, c.r11);
                out.append(" r12=");
                push_hex_u64(&mut out, c.r12);
                out.append(" r13=");
                push_hex_u64(&mut out, c.r13);
                out.append("\nr14=");
                push_hex_u64(&mut out, c.r14);
                out.append(" r15=");
                push_hex_u64(&mut out, c.r15);
            },
            RegisterContext::X86(c) => {
                out.append("eax=");
                push_hex_u32(&mut out, c.eax);
                out.append(" ebx=");
                push_hex_u32(&mut out, c.ebx);
                out.append(" ecx=");
                push_hex_u32(&mut out, c.ecx);
                out.append(" edx=");
                push_hex_u32(&mut out, c.edx);
                out.append(" esi=");
                push_hex_u32(&mut out, c.esi);
                out.append(" edi=");
                push_hex_u32(&mut out, c.edi);
                out.append("\neip=");
                push_hex_u32(&mut out, c.eip);
                out.append(" esp=");
                push_hex_u32(&mut out, c.esp);
                out.append(" ebp=");
                push_hex_u32(&mut out, c.ebp);
                out.append(" ");
            },
        }
        assert(out@ =~= context_text(*self));
        out
    }

    /// The width in bytes of a pointer under this context's architecture.
    pub fn pointer_size(&self) -> (n: usize)
        ensures
            n == context_pointer_size(*self),
    {
        match self {
            RegisterContext::X64(_) => 8,
            RegisterContext::X86(_) => 4,
        }
    }
}

} // verus!
