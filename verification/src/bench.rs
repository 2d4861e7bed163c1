//! Command-line filters selecting which operations and bit widths a benchmark run covers, and
//! the layout of the tables reporting the results.
use vstd::prelude::*;
use crate::compat::Iop;
use crate::text::{decimal, decimal_padded, push_char, push_decimal, zero_padded};
use crate::strutil::{
    contains, copy_str, lowercase, parse_u16, spec_contains, spec_parse_u16, spec_split, spec_trim,
    split, str_eq, strip_prefix, to_lowercase, trim,
};

verus! {

/// The bit widths benchmarked by default.
pub open spec fn spec_all_bits() -> Seq<u16> {
    seq![8u16, 16u16, 32u16, 64u16, 128u16]
}

/// Returns the bit widths benchmarked by default.
pub fn all_bits() -> (r: Vec<u16>)
    ensures
        r@ == spec_all_bits(),
{
    let r = vec![8u16, 16u16, 32u16, 64u16, 128u16];
    assert(r@ =~= spec_all_bits());
    r
}

/// Parsed filter options.
pub struct Filters {
    /// The operations to benchmark.
    pub iops: Vec<Iop>,
    /// The bit widths to benchmark.
    pub bits: Vec<u16>,
}

/// The comma-separated pieces of `s`, trimmed and lowercased.
pub open spec fn pattern_pieces(s: Seq<char>) -> Seq<Seq<char>> {
    spec_split(s, ',').map_values(|p: Seq<char>| lowercase(spec_trim(p)))
}

/// The values of the pieces that parse as `u16`, in order, once trimmed.
pub open spec fn parsed_pieces(pieces: Seq<Seq<char>>) -> Seq<u16>
    decreases pieces.len(),
{
    if pieces.len() == 0 {
        Seq::empty()
    } else {
        let prev = parsed_pieces(pieces.drop_last());
        match spec_parse_u16(spec_trim(pieces.last())) {
            Some(v) => prev.push(v),
            None => prev,
        }
    }
}

/// Whether `a` starts with `prefix`.
pub open spec fn starts_with(a: Seq<char>, prefix: Seq<char>) -> bool {
    prefix.len() <= a.len() && a.subrange(0, prefix.len() as int) == prefix
}

/// The iop patterns, the bit values and the other arguments found in `args` from position `i`:
/// `-i`/`--iops` take the next argument and `--iops=` the rest of theirs as a comma-separated
/// list of patterns, each trimmed and lowercased; `-b`/`--bits` and `--bits=` likewise as a list of bit widths, pieces that
/// are not numbers being dropped; every other argument is kept.
pub open spec fn scan(args: Seq<Seq<char>>, i: int) -> (Seq<Seq<char>>, Seq<u16>, Seq<Seq<char>>)
    decreases args.len() - i,
{
    if i < 0 || i >= args.len() {
        (Seq::empty(), Seq::empty(), Seq::empty())
    } else {
        let a = args[i];
        if a == "-i"@ || a == "--iops"@ {
            if i + 1 < args.len() {
                let rest = scan(args, i + 2);
                (pattern_pieces(args[i + 1]) + rest.0, rest.1, rest.2)
            } else {
                scan(args, i + 1)
            }
        } else if starts_with(a, "--iops="@) {
            let rest = scan(args, i + 1);
            (pattern_pieces(a.skip(7)) + rest.0, rest.1, rest.2)
        } else if a == "-b"@ || a == "--bits"@ {
            if i + 1 < args.len() {
                let rest = scan(args, i + 2);
                (rest.0, parsed_pieces(spec_split(args[i + 1], ',')) + rest.1, rest.2)
            } else {
                scan(args, i + 1)
            }
        } else if starts_with(a, "--bits="@) {
            let rest = scan(args, i + 1);
            (rest.0, parsed_pieces(spec_split(a.skip(7), ',')) + rest.1, rest.2)
        } else {
            let rest = scan(args, i + 1);
            (rest.0, rest.1, seq![a] + rest.2)
        }
    }
}

/// Whether the lowercase name of `iop` contains one of `patterns`.
pub open spec fn iop_matches(iop: Iop, patterns: Seq<Seq<char>>) -> bool {
    exists|k: int| 0 <= k < patterns.len() && spec_contains(iop.spec_lowercase_name(), #[trigger] patterns[k])
}

/// The operations selected by `patterns`: all of them when there is none.
pub open spec fn select_iops(patterns: Seq<Seq<char>>) -> Seq<Iop> {
    if patterns.len() == 0 {
        Iop::spec_all()
    } else {
        Iop::spec_all().filter(|iop: Iop| iop_matches(iop, patterns))
    }
}

/// The bit widths selected by `values`: all of them when there is none.
pub open spec fn select_bits(values: Seq<u16>) -> Seq<u16> {
    if values.len() == 0 {
        spec_all_bits()
    } else {
        spec_all_bits().filter(|b: u16| values.contains(b))
    }
}

/// The views of a list of strings.
pub open spec fn views(args: Seq<String>) -> Seq<Seq<char>> {
    args.map_values(|s: String| s@)
}

/// Appends to `out` the comma-separated pieces of `list`, trimmed and lowercased.
fn extend_pieces(out: &mut Vec<String>, list: &str)
    ensures
        views(final(out)@) == views(old(out)@) + pattern_pieces(list@),
{
    let pieces = split(list, ',');
    let ghost start = views(out@);
    let mut k: usize = 0;
    while k < pieces.len()
        invariant
            k <= pieces@.len(),
            pieces@.len() == spec_split(list@, ',').len(),
            forall|j: int| 0 <= j < pieces@.len() ==> #[trigger] pieces@[j]@ == spec_split(list@, ',')[j],
            views(out@) == start + pattern_pieces(list@).take(k as int),
        decreases pieces@.len() - k,
    {
        let t = trim(pieces[k].as_str());
        let l = to_lowercase(t.as_str());
        let ghost before = out@;
        out.push(l);
        proof {
            assert(pattern_pieces(list@)[k as int] == lowercase(spec_trim(pieces@[k as int]@)));
            assert(views(out@) =~= views(before).push(l@));
            assert(pattern_pieces(list@).take(k as int + 1) =~= pattern_pieces(list@).take(k as int).push(l@));
        }
        k = k + 1;
    }
    assert(pattern_pieces(list@).take(k as int) =~= pattern_pieces(list@));
}

/// Appends to `out` the comma-separated pieces of `list` that parse as `u16` once trimmed.
fn extend_values(out: &mut Vec<u16>, list: &str)
    ensures
        final(out)@ == old(out)@ + parsed_pieces(spec_split(list@, ',')),
{
    let pieces = split(list, ',');
    let ghost start = out@;
    let ghost all = spec_split(list@, ',');
    let mut k: usize = 0;
    while k < pieces.len()
        invariant
            k <= pieces@.len(),
            pieces@.len() == all.len(),
            all == spec_split(list@, ','),
            forall|j: int| 0 <= j < pieces@.len() ==> #[trigger] pieces@[j]@ == all[j],
            out@ == start + parsed_pieces(all.take(k as int)),
        decreases pieces@.len() - k,
    {
        proof {
            assert(all.take(k as int + 1).drop_last() =~= all.take(k as int));
            assert(all.take(k as int + 1).last() == pieces@[k as int]@);
        }
        let t = trim(pieces[k].as_str());
        match parse_u16(t.as_str()) {
            Some(v) => {
                out.push(v);
            },
            None => {},
        }
        k = k + 1;
        assert(out@ =~= start + parsed_pieces(all.take(k as int)));
    }
    assert(all.take(k as int) =~= all);
}

impl Filters {
    /// Selects the operations whose lowercase name contains one of `patterns` (all of them when
    /// there is none), and the default bit widths listed in `bit_values` (all of them when there
    /// is none).
    pub fn from_parts(patterns: &Vec<String>, bit_values: &Vec<u16>) -> (r: Filters)
        ensures
            r.iops@ == select_iops(views(patterns@)),
            r.bits@ == select_bits(bit_values@),
    {
        let all = Iop::all();
        let mut iops: Vec<Iop> = Vec::new();
        if patterns.len() == 0 {
            iops = all;
        } else {
            let mut k: usize = 0;
            while k < all.len()
                invariant
                    all@ == Iop::spec_all(),
                    patterns@.len() > 0,
                    k <= all@.len(),
                    iops@ == all@.take(k as int).filter(|iop: Iop| iop_matches(iop, views(patterns@))),
                decreases all@.len() - k,
            {
                reveal_with_fuel(Seq::<_>::filter, 1);
                let iop = all[k];
                let name = iop.lowercase_name();
                let mut found = false;
                let mut p: usize = 0;
                while p < patterns.len() && !found
                    invariant
                        p <= patterns@.len(),
                        name@ == iop.spec_lowercase_name(),
                        found == iop_matches(iop, views(patterns@).take(p as int)),
                        found ==> iop_matches(iop, views(patterns@)),
                    decreases patterns@.len() - p,
                {
                    if contains(name, patterns[p].as_str()) {
                        found = true;
                        proof {
                            assert(views(patterns@)[p as int] == patterns@[p as int]@);
                            assert(views(patterns@).take(p as int + 1)[p as int] == patterns@[p as int]@);
                        }
                    } else {
                        proof {
                            assert forall|j: int| 0 <= j < p + 1 && spec_contains(iop.spec_lowercase_name(), #[trigger] views(patterns@).take(p as int + 1)[j]) implies false by {
                                if j < p {
                                    assert(views(patterns@).take(p as int)[j] == views(patterns@).take(p as int + 1)[j]);
                                }
                            }
                        }
                    }
                    p = p + 1;
                }
                proof {
                    if !found {
                        assert(views(patterns@).take(p as int) =~= views(patterns@));
                    }
                    assert(all@.take(k as int + 1).drop_last() =~= all@.take(k as int));
                    assert(all@.take(k as int + 1).last() == iop);
                }
                if found {
                    iops.push(iop);
                }
                k = k + 1;
            }
            assert(all@.take(k as int) =~= all@);
        }
        let all_b = all_bits();
        let mut bits: Vec<u16> = Vec::new();
        if bit_values.len() == 0 {
            bits = all_b;
        } else {
            let mut k: usize = 0;
            while k < all_b.len()
                invariant
                    all_b@ == spec_all_bits(),
                    k <= all_b@.len(),
                    bits@ == all_b@.take(k as int).filter(|b: u16| bit_values@.contains(b)),
                decreases all_b@.len() - k,
            {
                reveal_with_fuel(Seq::<_>::filter, 1);
                let b = all_b[k];
                let mut found = false;
                let mut p: usize = 0;
                while p < bit_values.len() && !found
                    invariant
                        p <= bit_values@.len(),
                        found == bit_values@.take(p as int).contains(b),
                        found ==> bit_values@.contains(b),
                    decreases bit_values@.len() - p,
                {
                    if bit_values[p] == b {
                        found = true;
                        proof {
                            assert(bit_values@.take(p as int + 1)[p as int] == b);
                            assert(bit_values@[p as int] == b);
                        }
                    } else {
                        proof {
                            assert(bit_values@.take(p as int + 1) =~= bit_values@.take(p as int).push(bit_values@[p as int]));
                        }
                    }
                    p = p + 1;
                }
                proof {
                    if !found {
                        assert(bit_values@.take(p as int) =~= bit_values@);
                    }
                    assert(all_b@.take(k as int + 1).drop_last() =~= all_b@.take(k as int));
                    assert(all_b@.take(k as int + 1).last() == b);
                }
                if found {
                    bits.push(b);
                }
                k = k + 1;
            }
            assert(all_b@.take(k as int) =~= all_b@);
        }
        Filters { iops, bits }
    }
}


/// The state of a scan that has read the arguments before position `i`: what was found there,
/// followed by what the scan from `i` finds, is what the whole scan finds.
pub open spec fn scan_step(
    args: Seq<Seq<char>>,
    i: int,
    pats: Seq<Seq<char>>,
    vals: Seq<u16>,
    rest: Seq<Seq<char>>,
) -> bool {
    &&& pats + scan(args, i).0 == scan(args, 0).0
    &&& vals + scan(args, i).1 == scan(args, 0).1
    &&& rest + scan(args, i).2 == scan(args, 0).2
}

impl Filters {
    /// Parses the filter options out of `args`; returns the filters and the arguments that are
    /// not filter options, in order.
    pub fn parse(args: &[String]) -> (r: (Filters, Vec<String>))
        ensures
            r.0.iops@ == select_iops(scan(views(args@), 0).0),
            r.0.bits@ == select_bits(scan(views(args@), 0).1),
            views(r.1@) == scan(views(args@), 0).2,
    {
        let ghost v = views(args@);
        let mut patterns: Vec<String> = Vec::new();
        let mut values: Vec<u16> = Vec::new();
        let mut remaining: Vec<String> = Vec::new();
        let n = args.len();
        let mut i: usize = 0;
        proof {
            reveal_strlit("-i");
            reveal_strlit("--iops");
            reveal_strlit("--iops=");
            reveal_strlit("-b");
            reveal_strlit("--bits");
            reveal_strlit("--bits=");
        }
        assert(scan_step(v, 0, views(patterns@), values@, views(remaining@)));
        while i < n
            invariant
                n == args@.len(),
                v == views(args@),
                v.len() == n,
                i <= n + 1,
                i >= n ==> scan(v, i as int) == (Seq::<Seq<char>>::empty(), Seq::<u16>::empty(), Seq::<Seq<char>>::empty()),
                scan_step(v, i as int, views(patterns@), values@, views(remaining@)),
                "-i"@ =~= seq!['-', 'i'],
                "--iops"@ =~= seq!['-', '-', 'i', 'o', 'p', 's'],
                "--iops="@ =~= seq!['-', '-', 'i', 'o', 'p', 's', '='],
                "-b"@ =~= seq!['-', 'b'],
                "--bits"@ =~= seq!['-', '-', 'b', 'i', 't', 's'],
                "--bits="@ =~= seq!['-', '-', 'b', 'i', 't', 's', '='],
            decreases n + 1 - i,
        {
            let arg = args[i].as_str();
            assert(arg@ == v[i as int]);
            let ghost p0 = views(patterns@);
            let ghost b0 = values@;
            let ghost r0 = views(remaining@);
            if str_eq(arg, "-i") || str_eq(arg, "--iops") {
                if i + 1 < n {
                    extend_pieces(&mut patterns, args[i + 1].as_str());
                    proof {
                        assert(args@[i + 1]@ == v[i + 1]);
                        assert(views(patterns@) + scan(v, i + 2).0 =~= p0 + scan(v, i as int).0);
                        assert(values@ + scan(v, i + 2).1 =~= b0 + scan(v, i as int).1);
                        assert(views(remaining@) + scan(v, i + 2).2 =~= r0 + scan(v, i as int).2);
                    }
                    i = i + 2;
                } else {
                    i = i + 1;
                }
            } else {
                match strip_prefix(arg, "--iops=") {
                    Some(list) => {
                        extend_pieces(&mut patterns, list.as_str());
                        proof {
                            assert(starts_with(v[i as int], "--iops="@));
                            assert(views(patterns@) + scan(v, i + 1).0 =~= p0 + scan(v, i as int).0);
                            assert(values@ + scan(v, i + 1).1 =~= b0 + scan(v, i as int).1);
                            assert(views(remaining@) + scan(v, i + 1).2 =~= r0 + scan(v, i as int).2);
                        }
                        i = i + 1;
                    },
                    None => {
                        if str_eq(arg, "-b") || str_eq(arg, "--bits") {
                            if i + 1 < n {
                                extend_values(&mut values, args[i + 1].as_str());
                                proof {
                                    assert(args@[i + 1]@ == v[i + 1]);
                                    assert(views(patterns@) + scan(v, i + 2).0 =~= p0 + scan(v, i as int).0);
                                    assert(values@ + scan(v, i + 2).1 =~= b0 + scan(v, i as int).1);
                                    assert(views(remaining@) + scan(v, i + 2).2 =~= r0 + scan(v, i as int).2);
                                }
                                i = i + 2;
                            } else {
                                i = i + 1;
                            }
                        } else {
                            match strip_prefix(arg, "--bits=") {
                                Some(list) => {
                                    extend_values(&mut values, list.as_str());
                                    proof {
                                        assert(starts_with(v[i as int], "--bits="@));
                                        assert(views(patterns@) + scan(v, i + 1).0 =~= p0 + scan(v, i as int).0);
                                        assert(values@ + scan(v, i + 1).1 =~= b0 + scan(v, i as int).1);
                                        assert(views(remaining@) + scan(v, i + 1).2 =~= r0 + scan(v, i as int).2);
                                    }
                                    i = i + 1;
                                },
                                None => {
                                    let kept = copy_str(arg);
                                    remaining.push(kept);
                                    proof {
                                        assert(views(remaining@) =~= r0.push(v[i as int]));
                                        assert(views(patterns@) + scan(v, i + 1).0 =~= p0 + scan(v, i as int).0);
                                        assert(values@ + scan(v, i + 1).1 =~= b0 + scan(v, i as int).1);
                                        assert(views(remaining@) + scan(v, i + 1).2 =~= r0 + scan(v, i as int).2);
                                    }
                                    i = i + 1;
                                },
                            }
                        }
                    },
                }
            }
        }
        proof {
            assert(views(patterns@) =~= views(patterns@) + Seq::<Seq<char>>::empty());
            assert(values@ =~= values@ + Seq::<u16>::empty());
            assert(views(remaining@) =~= views(remaining@) + Seq::<Seq<char>>::empty());
        }
        let filters = Filters::from_parts(&patterns, &values);
        (filters, remaining)
    }
}

/// The decimal rendering of `n`, its digits grouped by threes from the right and the groups
/// separated by spaces.
pub open spec fn spec_group_digits(n: nat) -> Seq<char>
    decreases n,
{
    if n < 1000 {
        decimal(n)
    } else {
        spec_group_digits(n / 1000) + seq![' '] + zero_padded(decimal(n % 1000), 3)
    }
}

/// Renders `n` in decimal with its digits grouped by threes, such as `1 234 567`.
pub fn group_digits(n: u64) -> (r: String)
    ensures
        r@ == spec_group_digits(n as nat),
    decreases n,
{
    if n < 1000 {
        let mut s = String::new();
        push_decimal(&mut s, n);
        s
    } else {
        let mut s = group_digits(n / 1000);
        push_char(&mut s, ' ');
        let low = decimal_padded(n % 1000, 3);
        s.append(low.as_str());
        s
    }
}

/// The length of the longest `Debug` name among `iops`, zero when there is none.
pub open spec fn longest_name(iops: Seq<Iop>) -> nat
    decreases iops.len(),
{
    if iops.len() == 0 {
        0
    } else {
        let rest = longest_name(iops.drop_last());
        let here = iops.last().spec_debug_name().len();
        if here > rest { here } else { rest }
    }
}

/// The width of the operation column of a result table: two more than the longest operation
/// name, and than the 9 characters of its header.
pub open spec fn spec_op_column_width(iops: Seq<Iop>) -> nat {
    (if longest_name(iops) > 9 { longest_name(iops) } else { 9 }) + 2
}

/// No operation name is longer than 13 characters.
proof fn lemma_debug_name_short(iop: Iop)
    ensures
        iop.spec_debug_name().len() <= 13,
{
    reveal_strlit("CmpGt");
    reveal_strlit("CmpGte");
    reveal_strlit("CmpLt");
    reveal_strlit("CmpLte");
    reveal_strlit("CmpEq");
    reveal_strlit("CmpNeq");
    reveal_strlit("IfThenElse");
    reveal_strlit("IfThenZero");
    reveal_strlit("Add");
    reveal_strlit("Sub");
    reveal_strlit("Mul");
    reveal_strlit("Ilog2");
    reveal_strlit("CountZeros");
    reveal_strlit("CountOnes");
    reveal_strlit("LeadingZeros");
    reveal_strlit("LeadingOnes");
    reveal_strlit("TrailingZeros");
    reveal_strlit("TrailingOnes");
    reveal_strlit("Div");
    reveal_strlit("Mod");
}

/// Returns the width of the operation column of a table listing `iops`.
pub fn op_column_width(iops: &Vec<Iop>) -> (r: usize)
    ensures
        r == spec_op_column_width(iops@),
{
    let mut longest: usize = 0;
    let mut k: usize = 0;
    while k < iops.len()
        invariant
            k <= iops@.len(),
            longest == longest_name(iops@.take(k as int)),
            longest <= 16,
        decreases iops@.len() - k,
    {
        proof {
            assert(iops@.take(k as int + 1).drop_last() =~= iops@.take(k as int));
            assert(iops@.take(k as int + 1).last() == iops@[k as int]);
            lemma_debug_name_short(iops@[k as int]);
        }
        let name = iops[k].debug_name();
        let len = name.unicode_len();
        if len > longest {
            longest = len;
        }
        k = k + 1;
    }
    assert(iops@.take(k as int) =~= iops@);
    if longest > 9 { longest + 2 } else { 11 }
}

/// Whether two commit hashes name different commits: neither is a prefix of the other.
pub open spec fn distinct_commits(a: Seq<char>, b: Seq<char>) -> bool {
    !starts_with(a, b) && !starts_with(b, a)
}

/// Returns the position of the latest of `commits` that names a commit other than `exclude`.
pub fn latest_baseline(commits: &Vec<String>, exclude: &str) -> (r: Option<usize>)
    ensures
        match r {
            Some(k) => {
                &&& k < commits@.len()
                &&& distinct_commits(commits@[k as int]@, exclude@)
                &&& forall|j: int| k < j < commits@.len() ==> !distinct_commits(#[trigger] commits@[j]@, exclude@)
            },
            None => forall|j: int| 0 <= j < commits@.len() ==> !distinct_commits(#[trigger] commits@[j]@, exclude@),
        },
{
    let mut k: usize = commits.len();
    while k > 0
        invariant
            k <= commits@.len(),
            forall|j: int| k <= j < commits@.len() ==> !distinct_commits(#[trigger] commits@[j]@, exclude@),
        decreases k,
    {
        let c = commits[k - 1].as_str();
        let a = strip_prefix(c, exclude);
        let b = strip_prefix(exclude, c);
        if a.is_none() && b.is_none() {
            return Some(k - 1);
        }
        k = k - 1;
    }
    None
}

/// Returns the spaces to put left and right of a cell of `len` visible characters to center it
/// in `width` columns: half of what is missing on the left, the rest on the right.
pub fn center_padding(width: usize, len: usize) -> (r: (usize, usize))
    ensures
        len <= width ==> r.0 + r.1 + len == width && r.0 == (width - len) / 2,
        len > width ==> r == (0usize, 0usize),
{
    let pad = if len < width { width - len } else { 0 };
    let left = pad / 2;
    (left, pad - left)
}

} // verus!
