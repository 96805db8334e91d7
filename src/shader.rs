use vstd::prelude::*;

verus! {

/// Identity pair substituted when no digital lens correction is given.
pub const IDENTITY_LENS: &'static str = "fn digital_undistort_point(uv: vec2<f32>) -> vec2<f32> { return uv; }
fn digital_distort_point(uv: vec2<f32>) -> vec2<f32> { return uv; }";

/// Every non-overlapping occurrence of `pat` in `s`, from the left, replaced by `to`.
pub open spec fn replaced(s: Seq<char>, pat: Seq<char>, to: Seq<char>) -> Seq<char>
    decreases s.len(),
{
    if pat.len() == 0 || s.len() < pat.len() {
        s
    } else if s.subrange(0, pat.len() as int) == pat {
        to + replaced(s.subrange(pat.len() as int, s.len() as int), pat, to)
    } else {
        seq![s[0]] + replaced(s.subrange(1, s.len() as int), pat, to)
    }
}

/// Decimal digits of a natural number, most significant first.
pub open spec fn decimal_digits(n: nat) -> Seq<char>
    decreases n,
{
    let d = seq![(('0' as u8) + (n % 10) as u8) as char];
    if n < 10 { d } else { decimal_digits(n / 10) + d }
}

/// An integer as Rust prints it in decimal.
pub open spec fn decimal(n: int) -> Seq<char> {
    if n < 0 { seq!['-'] + decimal_digits((-n) as nat) } else { decimal_digits(n as nat) }
}

/// Relies on `str::replace`: each non-overlapping match of a non-empty
/// pattern, found from the left, is replaced.
#[verifier::external_body]
fn replace_all(s: &str, pat: &str, to: &str) -> (r: String)
    requires
        pat@.len() > 0,
    ensures
        r@ == replaced(s@, pat@, to@),
{
    s.replace(pat, to)
}

/// Relies on the `Display` impl of `i32`: the decimal form of the value, then a `u` suffix.
#[verifier::external_body]
fn unsigned_literal(n: i32) -> (r: String)
    ensures
        r@ == decimal(n as int) + seq!['u'],
{
    format!("{}u", n)
}

/// The kernel source for a distortion model, as `assemble_kernel` returns it.
pub open spec fn kernel_source(
    template: Seq<char>,
    model_functions: Seq<char>,
    digital_lens: Option<Seq<char>>,
    scalar: Seq<char>,
    bg_scaler: Seq<char>,
    interpolation: i32,
    overlay: bool,
) -> Seq<char> {
    let lens = match digital_lens {
        Some(d) => d,
        None => IDENTITY_LENS@,
    };
    let k = replaced(template, "LENS_MODEL_FUNCTIONS;"@, model_functions + lens);
    let k = replaced(k, "SCALAR"@, scalar);
    let k = replaced(k, "bg_scaler"@, bg_scaler);
    let k = replaced(k, "params.interpolation"@, decimal(interpolation as int) + seq!['u']);
    if overlay { k } else { replaced(k, "bool(params.flags & 8)"@, "false"@) }
}

/// Builds the kernel source from `template`: the distortion model's function
/// pair followed by the digital lens pair (the identity when there is none),
/// the pixel scalar type, the background scale as text, and the interpolation
/// mode as a constant. Without the overlay its test becomes `false`.
pub fn assemble_kernel(
    template: &str,
    model_functions: &str,
    digital_lens: Option<&str>,
    scalar: &str,
    bg_scaler: &str,
    interpolation: i32,
    overlay: bool,
) -> (r: String)
    ensures
        r@ == kernel_source(
            template@,
            model_functions@,
            match digital_lens {
                Some(d) => Some(d@),
                None => None,
            },
            scalar@,
            bg_scaler@,
            interpolation,
            overlay,
        ),
{
    let mut lens = String::from_str(model_functions);
    match digital_lens {
        Some(d) => lens.append(d),
        None => lens.append(IDENTITY_LENS),
    }
    proof {
        reveal_strlit("LENS_MODEL_FUNCTIONS;");
        reveal_strlit("SCALAR");
        reveal_strlit("bg_scaler");
        reveal_strlit("params.interpolation");
        reveal_strlit("bool(params.flags & 8)");
    }
    let kernel = replace_all(template, "LENS_MODEL_FUNCTIONS;", lens.as_str());
    let kernel = replace_all(kernel.as_str(), "SCALAR", scalar);
    let kernel = replace_all(kernel.as_str(), "bg_scaler", bg_scaler);
    let mode = unsigned_literal(interpolation);
    let kernel = replace_all(kernel.as_str(), "params.interpolation", mode.as_str());
    if overlay {
        kernel
    } else {
        replace_all(kernel.as_str(), "bool(params.flags & 8)", "false")
    }
}

/// The same inputs always give the same kernel source, byte for byte.
pub proof fn lemma_kernel_source_deterministic(
    template: Seq<char>,
    model_functions: Seq<char>,
    digital_lens: Option<Seq<char>>,
    scalar: Seq<char>,
    bg_scaler: Seq<char>,
    interpolation: i32,
    overlay: bool,
    r1: Seq<char>,
    r2: Seq<char>,
)
    requires
        r1 == kernel_source(template, model_functions, digital_lens, scalar, bg_scaler, interpolation, overlay),
        r2 == kernel_source(template, model_functions, digital_lens, scalar, bg_scaler, interpolation, overlay),
    ensures
        r1 == r2,
{
}

} // verus!
