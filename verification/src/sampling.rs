//! Weighted choice of a variant, seeded by a hash of the function's name and
//! the episode.

use vstd::prelude::*;
use vstd::utf8::encode_utf8;
use uuid::Uuid;
use crate::error::{Error, ErrorDetails};
use crate::ids::{id_bytes, uuid_bytes};
use crate::table::NameTable;
use crate::variant::VariantInfo;

verus! {

/// The SHA-256 digest of a sequence of bytes.
pub uninterp spec fn sha256(data: Seq<u8>) -> Seq<u8>;

/// Calls `Digest::digest` of `sha2::Sha256`, which hashes the bytes in one go,
/// and copies the digest out: thirty-two bytes.
#[verifier::external_body]
pub(crate) fn sha256_digest(data: &Vec<u8>) -> (d: Vec<u8>)
    ensures
        d@ == sha256(data@),
        d@.len() == 32,
{
    <sha2::Sha256 as sha2::Digest>::digest(data).to_vec()
}

/// Two to the power thirty-two.
pub open spec fn two_32() -> nat {
    0x1_0000_0000
}

/// The first four bytes of `d`, read as one big-endian number.
pub open spec fn big_endian_32(d: Seq<u8>) -> nat
    recommends
        d.len() >= 4,
{
    (d[0] as nat) * 0x100_0000 + (d[1] as nat) * 0x1_0000 + (d[2] as nat) * 0x100 + (d[3] as nat)
}

/// The numerator of the uniform value of a function and an episode: the value
/// itself is this number divided by two to the thirty-two.
pub open spec fn uniform_numerator(function_name: Seq<char>, episode: Seq<u8>) -> nat {
    big_endian_32(sha256(encode_utf8(function_name) + episode))
}

/// A number in `[0, 1)` that depends on the function's name and the episode
/// alone, given by its numerator over two to the thirty-two: the first four
/// bytes of the SHA-256 digest of the name followed by the episode's bytes.
pub fn get_uniform_value(function_name: &str, episode_id: &Uuid) -> (h: u32)
    ensures
        h == uniform_numerator(function_name@, uuid_bytes(*episode_id)),
{
    let mut data = function_name.as_bytes_vec();
    let mut id = id_bytes(episode_id);
    data.append(&mut id);
    let d = sha256_digest(&data);
    let b0: u32 = d[0] as u32;
    let b1: u32 = d[1] as u32;
    let b2: u32 = d[2] as u32;
    let b3: u32 = d[3] as u32;
    b0 * 0x100_0000 + b1 * 0x1_0000 + b2 * 0x100 + b3
}

/// The sum of a sequence of weights.
pub open spec fn sum(ws: Seq<nat>) -> nat
    decreases ws.len(),
{
    if ws.len() == 0 {
        0
    } else {
        sum(ws.drop_last()) + ws.last()
    }
}

/// The sum of the first `k` weights.
pub open spec fn prefix_sum(ws: Seq<nat>, k: int) -> nat {
    sum(ws.take(k))
}

/// The threshold `h` over two to the thirty-two, taken of the total weight,
/// falls on the candidate at place `i`: the weight before `i` does not exceed
/// it, the weight up to and with `i` does.
pub open spec fn picks(ws: Seq<nat>, h: nat, i: int) -> bool {
    &&& 0 <= i < ws.len()
    &&& prefix_sum(ws, i) * two_32() <= h * sum(ws)
    &&& h * sum(ws) < prefix_sum(ws, i + 1) * two_32()
}

/// The place that `h` over two to the thirty-two picks among `n` candidates
/// of equal standing.
pub open spec fn uniform_pick(h: nat, n: nat) -> int {
    ((h * n) / two_32()) as int
}

/// The place that `h` picks among candidates with the weights `ws`: by
/// weight where any is positive, else uniformly.
pub open spec fn chosen_place(ws: Seq<nat>, h: nat) -> int {
    if sum(ws) == 0 {
        uniform_pick(h, ws.len())
    } else {
        choose|i: int| picks(ws, h, i)
    }
}

/// The sum of the first `k + 1` weights is that of the first `k` and the
/// weight at place `k`.
pub proof fn lemma_prefix_step(ws: Seq<nat>, k: int)
    requires
        0 <= k < ws.len(),
    ensures
        prefix_sum(ws, k + 1) == prefix_sum(ws, k) + ws[k],
{
    assert(ws.take(k + 1).drop_last() =~= ws.take(k));
}

/// The sums of the first weights grow with their number.
pub proof fn lemma_prefix_monotone(ws: Seq<nat>, i: int, j: int)
    requires
        0 <= i <= j <= ws.len(),
    ensures
        prefix_sum(ws, i) <= prefix_sum(ws, j),
    decreases j - i,
{
    if i < j {
        lemma_prefix_step(ws, j - 1);
        lemma_prefix_monotone(ws, i, j - 1);
    }
}

/// The sum of no weight is nothing, and that of all weights is their sum.
pub proof fn lemma_prefix_all(ws: Seq<nat>)
    ensures
        prefix_sum(ws, ws.len() as int) == sum(ws),
        prefix_sum(ws, 0) == 0,
{
    assert(ws.take(ws.len() as int) =~= ws);
}

/// A threshold picks at most one candidate.
pub proof fn lemma_picks_unique(ws: Seq<nat>, h: nat, i: int, j: int)
    requires
        picks(ws, h, i),
        picks(ws, h, j),
    ensures
        i == j,
{
    if i < j {
        lemma_prefix_monotone(ws, i + 1, j);
        assert(prefix_sum(ws, i + 1) * two_32() <= prefix_sum(ws, j) * two_32()) by (nonlinear_arith)
            requires
                prefix_sum(ws, i + 1) <= prefix_sum(ws, j),
        ;
    }
    if j < i {
        lemma_prefix_monotone(ws, j + 1, i);
        assert(prefix_sum(ws, j + 1) * two_32() <= prefix_sum(ws, i) * two_32()) by (nonlinear_arith)
            requires
                prefix_sum(ws, j + 1) <= prefix_sum(ws, i),
        ;
    }
}

/// Where some weight is positive, every threshold below one picks a candidate.
pub proof fn lemma_picks_exists(ws: Seq<nat>, h: nat) -> (i: int)
    requires
        sum(ws) > 0,
        h < two_32(),
    ensures
        picks(ws, h, i),
        chosen_place(ws, h) == i,
{
    lemma_prefix_all(ws);
    let t = h * sum(ws);
    assert(t < sum(ws) * two_32()) by (nonlinear_arith)
        requires
            t == h * sum(ws),
            h < two_32(),
            sum(ws) > 0,
    ;
    let i = lemma_first_exceeding(ws, t, ws.len() as int);
    assert(picks(ws, h, i));
    let c = chosen_place(ws, h);
    assert(picks(ws, h, c));
    lemma_picks_unique(ws, h, i, c);
    i
}

proof fn lemma_first_exceeding(ws: Seq<nat>, t: nat, k: int) -> (i: int)
    requires
        0 <= k <= ws.len(),
        t < prefix_sum(ws, k) * two_32(),
    ensures
        0 <= i < k,
        prefix_sum(ws, i) * two_32() <= t < prefix_sum(ws, i + 1) * two_32(),
    decreases k,
{
    if k == 0 {
        assert(ws.take(0) =~= Seq::<nat>::empty());
        0
    } else if t < prefix_sum(ws, k - 1) * two_32() {
        lemma_first_exceeding(ws, t, k - 1)
    } else {
        k - 1
    }
}

/// Among `n` candidates of equal standing, the place picked lies in range,
/// and it is `i` exactly for the thresholds between `i` and `i + 1` parts of `n`.
pub proof fn lemma_uniform_pick(h: nat, n: nat, i: int)
    requires
        h < two_32(),
        n > 0,
    ensures
        0 <= uniform_pick(h, n) < n,
        uniform_pick(h, n) == i <==> i * two_32() <= h * n < (i + 1) * two_32(),
{
    let q = uniform_pick(h, n);
    assert(0 <= q < n && q * two_32() <= h * n < (q + 1) * two_32()) by (nonlinear_arith)
        requires
            q == (h * n) / two_32(),
            h < two_32(),
            n > 0,
            two_32() == 0x1_0000_0000,
    ;
    if i * two_32() <= h * n < (i + 1) * two_32() {
        assert(i == q) by (nonlinear_arith)
            requires
                i * two_32() <= h * n < (i + 1) * two_32(),
                q * two_32() <= h * n < (q + 1) * two_32(),
                two_32() == 0x1_0000_0000,
        ;
    }
}

/// With positive weights, a candidate is picked by the thresholds that fall
/// into its share of the total weight, and by no other: the place picked is
/// `i` exactly where the weight before `i` does not exceed the threshold's
/// part of the total and the weight up to and with `i` does. Over all
/// thresholds, each candidate is thus picked in proportion to its weight.
pub proof fn lemma_weighted_share(ws: Seq<nat>, h: nat, i: int)
    requires
        sum(ws) > 0,
        h < two_32(),
    ensures
        0 <= chosen_place(ws, h) < ws.len(),
        chosen_place(ws, h) == i <==> picks(ws, h, i),
{
    let c = lemma_picks_exists(ws, h);
    if picks(ws, h, i) {
        lemma_picks_unique(ws, h, i, c);
    }
}

/// The least number of `t`s that make up at least `a`.
pub open spec fn ceil_div(a: nat, t: nat) -> nat
    recommends
        t > 0,
{
    ((a + t - 1) / t as int) as nat
}

/// The thresholds that pick a candidate are those of one interval, and the
/// length of the interval is the candidate's share of all thresholds, to
/// within one threshold: where the weights before the candidate come to
/// `before`, its own to `w` and all to `t`, the interval runs from the
/// least threshold whose part of `t` reaches `before` to the least one
/// whose part reaches `before + w`, and `t` times its length lies within
/// `t` of `w` times the number of thresholds. So a candidate is picked with
/// a frequency of its weight over the total weight, where the thresholds
/// are spread evenly.
pub proof fn lemma_share_of_thresholds(ws: Seq<nat>, i: int, h: nat)
    requires
        sum(ws) > 0,
        0 <= i < ws.len(),
    ensures
        ({
            let t = sum(ws);
            let low = ceil_div(prefix_sum(ws, i) * two_32(), t);
            let high = ceil_div(prefix_sum(ws, i + 1) * two_32(), t);
            &&& picks(ws, h, i) <==> low <= h < high
            &&& low <= high
            &&& ws[i] * two_32() - t < t * (high - low) < ws[i] * two_32() + t
        }),
{
    let t = sum(ws);
    let a = prefix_sum(ws, i) * two_32();
    let b = prefix_sum(ws, i + 1) * two_32();
    let low = ceil_div(a, t);
    let high = ceil_div(b, t);
    lemma_prefix_step(ws, i);
    assert(b == a + ws[i] * two_32()) by (nonlinear_arith)
        requires
            a == prefix_sum(ws, i) * two_32(),
            b == prefix_sum(ws, i + 1) * two_32(),
            prefix_sum(ws, i + 1) == prefix_sum(ws, i) + ws[i],
    ;
    lemma_ceil_div(a, t, h);
    lemma_ceil_div(b, t, h);
    assert(picks(ws, h, i) <==> low <= h < high);
    lemma_ceil_bounds(a, t);
    lemma_ceil_bounds(b, t);
    assert(high * t == t * high) by (nonlinear_arith);
    lemma_ceil_div(a, t, high);
    assert(low <= high);
    assert(t * (high - low) == t * high - t * low) by (nonlinear_arith);
}

proof fn lemma_ceil_bounds(a: nat, t: nat)
    requires
        t > 0,
    ensures
        a <= t * ceil_div(a, t) < a + t,
{
    let q = (a + t - 1) / t as int;
    assert(a <= t * q < a + t) by (nonlinear_arith)
        requires
            t > 0,
            a >= 0,
            q == (a + t - 1) / t as int,
    ;
}

proof fn lemma_ceil_div(a: nat, t: nat, h: nat)
    requires
        t > 0,
    ensures
        a <= h * t <==> ceil_div(a, t) <= h,
{
    lemma_ceil_bounds(a, t);
    let c = ceil_div(a, t);
    if c <= h {
        assert(t * c <= h * t) by (nonlinear_arith)
            requires
                c <= h,
                t > 0,
        ;
    } else {
        assert(h * t + t <= t * c) by (nonlinear_arith)
            requires
                h + 1 <= c,
                t > 0,
        ;
    }
}

/// The choice of a variant depends on the name of the function and on the
/// bytes of the episode's identifier alone: two episodes with the same bytes
/// pick the same candidate of the same function, whenever and wherever the
/// choice is made.
pub proof fn lemma_same_episode_same_choice(
    variants: NameTable<VariantInfo>,
    names: Seq<Seq<char>>,
    function_name: Seq<char>,
    episode: Uuid,
    other: Uuid,
)
    requires
        uuid_bytes(episode) == uuid_bytes(other),
    ensures
        sample_spec(variants, names, uniform_numerator(function_name, uuid_bytes(episode)))
            == sample_spec(variants, names, uniform_numerator(function_name, uuid_bytes(other))),
{
}

/// The weight that the candidate `name` has in `variants`: that of its
/// variant, nothing where the table has no such variant.
pub open spec fn candidate_weight(variants: NameTable<VariantInfo>, name: Seq<char>) -> nat {
    match variants.lookup(name) {
        Some(v) => v.weight_value(),
        None => 0,
    }
}

/// The weights of the candidates, in their order.
pub open spec fn candidate_weights(variants: NameTable<VariantInfo>, names: Seq<Seq<char>>) -> Seq<
    nat,
> {
    Seq::new(names.len(), |i: int| candidate_weight(variants, names[i]))
}

/// The first place at which a candidate stands that `variants` does not
/// have; the number of candidates where it has them all.
pub open spec fn first_unknown(variants: NameTable<VariantInfo>, names: Seq<Seq<char>>) -> int {
    choose|j: int| is_first_unknown(variants, names, j)
}

/// `j` is the place of the first candidate that `variants` does not have,
/// or the number of candidates where it has them all.
pub open spec fn is_first_unknown(
    variants: NameTable<VariantInfo>,
    names: Seq<Seq<char>>,
    j: int,
) -> bool {
    &&& 0 <= j <= names.len()
    &&& forall|k: int| 0 <= k < j ==> variants.contains(#[trigger] names[k])
    &&& j < names.len() ==> !variants.contains(names[j])
}

/// There is one place of the first candidate without a variant.
pub proof fn lemma_first_unknown(variants: NameTable<VariantInfo>, names: Seq<Seq<char>>, j: int)
    requires
        is_first_unknown(variants, names, j),
    ensures
        first_unknown(variants, names) == j,
{
    let c = first_unknown(variants, names);
    assert(is_first_unknown(variants, names, c));
    if c < j {
        assert(variants.contains(names[c]));
    }
    if j < c {
        assert(variants.contains(names[j]));
    }
}

/// What sampling comes to.
pub enum Sample {
    /// The candidate at this place is taken out and returned.
    Picked(int),
    /// There is no candidate.
    NoVariants,
    /// The candidate at this place has no variant; `removed` says whether it
    /// was taken out of the candidates before that showed.
    Unknown { place: int, removed: bool },
}

/// What sampling among the candidates `names` comes to for the threshold `h`
/// over two to the thirty-two.
///
/// Where no candidate has weight, the place is picked uniformly and the
/// candidate taken out, whether or not `variants` has it. Where some weight
/// is positive, the candidates are walked in order up to the one that the
/// threshold picks, and the first one without a variant ends the walk.
pub open spec fn sample_spec(variants: NameTable<VariantInfo>, names: Seq<Seq<char>>, h: nat) -> Sample {
    let ws = candidate_weights(variants, names);
    let i = chosen_place(ws, h);
    if sum(ws) == 0 {
        if names.len() == 0 {
            Sample::NoVariants
        } else if variants.contains(names[i]) {
            Sample::Picked(i)
        } else {
            Sample::Unknown { place: i, removed: true }
        }
    } else if first_unknown(variants, names) < i {
        Sample::Unknown { place: first_unknown(variants, names), removed: false }
    } else {
        Sample::Picked(i)
    }
}

/// The views of a list of names.
pub open spec fn name_views(names: Seq<&str>) -> Seq<Seq<char>> {
    names.map_values(|s: &str| s@)
}

/// The text of the error for a function without candidates.
pub open spec fn no_variants_text(function_name: Seq<char>) -> Seq<char> {
    "Function `"@ + function_name + "` has no variants"@
}

/// The text of the error for a candidate without a variant.
pub open spec fn unknown_variant_text(function_name: Seq<char>, name: Seq<char>) -> Seq<char> {
    "Function `"@ + function_name + "` has no variant `"@ + name + "`"@
}

fn unknown_variant(function_name: &str, name: &str) -> (e: Error)
    ensures
        e.is_invalid_variants(unknown_variant_text(function_name@, name@)),
{
    let mut message = String::from_str("Function `");
    message.append(function_name);
    message.append("` has no variant `");
    message.append(name);
    message.append("`");
    Error::new(ErrorDetails::InvalidFunctionVariants { message })
}

/// `after` is `before` with the entry at `i` taken out and the last entry
/// put in its place.
pub open spec fn swap_removed<T>(before: Seq<T>, i: int, after: Seq<T>) -> bool {
    after == before.update(i, before.last()).drop_last()
}

/// Picks a variant among the candidates and takes it out of them, so that a
/// caller can try again with the rest.
///
/// The choice depends on the function's name and the episode alone: the same
/// episode of the same function picks the same candidate.
#[verifier::loop_isolation(false)]
pub fn sample_variant<'a>(
    candidate_variant_names: &mut Vec<&'a str>,
    variants: &'a NameTable<VariantInfo>,
    function_name: &str,
    episode_id: &Uuid,
) -> (r: Result<(&'a str, &'a VariantInfo), Error>)
    ensures
        match sample_spec(
            *variants,
            name_views(old(candidate_variant_names)@),
            uniform_numerator(function_name@, uuid_bytes(*episode_id)),
        ) {
            Sample::Picked(i) => {
                &&& 0 <= i < old(candidate_variant_names)@.len()
                &&& r matches Ok(pair)
                &&& pair.0 == old(candidate_variant_names)@[i]
                &&& variants.lookup(pair.0@) == Some(*pair.1)
                &&& swap_removed(old(candidate_variant_names)@, i, final(candidate_variant_names)@)
            },
            Sample::NoVariants => {
                &&& r matches Err(e)
                &&& e.is_invalid_variants(no_variants_text(function_name@))
                &&& final(candidate_variant_names)@ == old(candidate_variant_names)@
            },
            Sample::Unknown { place, removed } => {
                &&& 0 <= place < old(candidate_variant_names)@.len()
                &&& r matches Err(e)
                &&& e.is_invalid_variants(
                    unknown_variant_text(function_name@, old(candidate_variant_names)@[place]@),
                )
                &&& if removed {
                    swap_removed(
                        old(candidate_variant_names)@,
                        place,
                        final(candidate_variant_names)@,
                    )
                } else {
                    final(candidate_variant_names)@ == old(candidate_variant_names)@
                }
            },
        },
{
    let h = get_uniform_value(function_name, episode_id);
    let n = candidate_variant_names.len();
    let ghost names = name_views(candidate_variant_names@);
    let ghost ws = candidate_weights(*variants, names);
    let mut total: u128 = 0;
    let mut k: usize = 0;
    while k < n
        invariant
            k <= n,
            n == candidate_variant_names@.len(),
            names == name_views(candidate_variant_names@),
            ws == candidate_weights(*variants, names),
            total == prefix_sum(ws, k as int),
            total <= k * 0xffff_ffff,
        decreases n - k,
    {
        let w: u128 = match variants.get(candidate_variant_names[k]) {
            Some(v) => v.weight_or_zero() as u128,
            None => 0,
        };
        proof {
            lemma_prefix_step(ws, k as int);
            assert(k * 0xffff_ffff + 0xffff_ffff <= 0xffff_ffff_ffff_ffff * 0xffff_ffff
                + 0xffff_ffff) by (nonlinear_arith)
                requires
                    k <= 0xffff_ffff_ffff_ffff,
            ;
        }
        total = total + w;
        k = k + 1;
    }
    proof {
        lemma_prefix_all(ws);
        assert(n * 0xffff_ffff <= 0xffff_ffff_ffff_ffff * 0xffff_ffff) by (nonlinear_arith)
            requires
                n <= 0xffff_ffff_ffff_ffff,
        ;
    }
    if total == 0 {
        if n == 0 {
            let mut message = String::from_str("Function `");
            message.append(function_name);
            message.append("` has no variants");
            return Err(Error::new(ErrorDetails::InvalidFunctionVariants { message }));
        }
        proof {
            lemma_uniform_pick(h as nat, n as nat, 0);
            assert(h * n <= 0xffff_ffff * 0xffff_ffff_ffff_ffff) by (nonlinear_arith)
                requires
                    h <= 0xffff_ffff,
                    n <= 0xffff_ffff_ffff_ffff,
            ;
        }
        let index = ((h as u128 * n as u128) / 0x1_0000_0000) as usize;
        proof {
            assert(names[index as int] == candidate_variant_names@[index as int]@);
        }
        let name = candidate_variant_names.swap_remove(index);
        return match variants.get(name) {
            Some(v) => Ok((name, v)),
            None => Err(unknown_variant(function_name, name)),
        };
    }
    proof {
        assert(h * total <= 0xffff_ffff * total) by (nonlinear_arith)
            requires
                h <= 0xffff_ffff,
        ;
    }
    let threshold: u128 = h as u128 * total;
    let ghost pick = lemma_picks_exists(ws, h as nat);
    let mut cumulative: u128 = 0;
    let mut i: usize = 0;
    while i < n - 1
        invariant
            n > 0,
            i <= n - 1,
            n == candidate_variant_names@.len(),
            candidate_variant_names@ == old(candidate_variant_names)@,
            names == name_views(candidate_variant_names@),
            ws == candidate_weights(*variants, names),
            ws.len() == n,
            total == sum(ws),
            total <= n * 0xffff_ffff,
            n * 0xffff_ffff <= 0xffff_ffff_ffff_ffff * 0xffff_ffff,
            threshold == h * total,
            cumulative == prefix_sum(ws, i as int),
            cumulative * two_32() <= threshold,
            forall|k: int| 0 <= k < i ==> variants.contains(#[trigger] names[k]),
            picks(ws, h as nat, pick),
            chosen_place(ws, h as nat) == pick,
        decreases n - i,
    {
        let name = candidate_variant_names[i];
        proof {
            assert(names[i as int] == name@);
            lemma_prefix_step(ws, i as int);
            lemma_prefix_monotone(ws, i + 1, n as int);
            lemma_prefix_all(ws);
            if pick < i {
                lemma_prefix_monotone(ws, pick + 1, i as int);
                assert(prefix_sum(ws, pick + 1) * two_32() <= prefix_sum(ws, i as int) * two_32())
                    by (nonlinear_arith)
                    requires
                        prefix_sum(ws, pick + 1) <= prefix_sum(ws, i as int),
                ;
            }
        }
        match variants.get(name) {
            None => {
                proof {
                    assert(is_first_unknown(*variants, names, i as int));
                    lemma_first_unknown(*variants, names, i as int);
                    assert(ws[i as int] == 0);
                }
                return Err(unknown_variant(function_name, name));
            },
            Some(v) => {
                cumulative = cumulative + v.weight_or_zero() as u128;
                if cumulative * 0x1_0000_0000 > threshold {
                    proof {
                        assert(picks(ws, h as nat, i as int));
                        lemma_picks_unique(ws, h as nat, i as int, pick);
                        let u = first_unknown(*variants, names);
                        assert(is_first_unknown(*variants, names, u)) by {
                            lemma_unknown_exists(*variants, names);
                        }
                        if u < i {
                            assert(variants.contains(names[u]));
                        }
                    }
                    let taken = candidate_variant_names.swap_remove(i);
                    return Ok((taken, v));
                }
            },
        }
        i = i + 1;
    }
    let last = candidate_variant_names[n - 1];
    proof {
        assert(names[n - 1] == last@);
        lemma_prefix_step(ws, n - 1);
        lemma_prefix_all(ws);
        if pick < n - 1 {
            lemma_prefix_monotone(ws, pick + 1, n - 1);
            assert(prefix_sum(ws, pick + 1) * two_32() <= prefix_sum(ws, n - 1) * two_32())
                by (nonlinear_arith)
                requires
                    prefix_sum(ws, pick + 1) <= prefix_sum(ws, n - 1),
            ;
        }
        assert(pick == n - 1);
    }
    match variants.get(last) {
        None => {
            proof {
                assert(ws[n - 1] == 0);
            }
            Err(unknown_variant(function_name, last))
        },
        Some(v) => {
            proof {
                let u = first_unknown(*variants, names);
                lemma_unknown_exists(*variants, names);
                if u < n - 1 {
                    assert(variants.contains(names[u]));
                }
            }
            let taken = candidate_variant_names.swap_remove(n - 1);
            Ok((taken, v))
        },
    }
}

proof fn lemma_unknown_exists(variants: NameTable<VariantInfo>, names: Seq<Seq<char>>)
    ensures
        is_first_unknown(variants, names, first_unknown(variants, names)),
{
    let j = lemma_unknown_search(variants, names, 0);
    assert(is_first_unknown(variants, names, j));
}

proof fn lemma_unknown_search(variants: NameTable<VariantInfo>, names: Seq<Seq<char>>, from: int) -> (j:
    int)
    requires
        0 <= from <= names.len(),
        forall|k: int| 0 <= k < from ==> variants.contains(#[trigger] names[k]),
    ensures
        is_first_unknown(variants, names, j),
    decreases names.len() - from,
{
    if from == names.len() {
        from
    } else if !variants.contains(names[from]) {
        from
    } else {
        lemma_unknown_search(variants, names, from + 1)
    }
}

} // verus!
