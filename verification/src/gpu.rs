//! Extraction of GPU device descriptions from the text that the
//! platform-specific listing commands print, and their rendering as a
//! numbered block for the host inventory. Which command ran and what it
//! printed is the caller's business; every branch here resolves to some
//! text, so GPU collection can never fail as a whole.

use vstd::prelude::*;
use crate::chars::{
    spec_split_lines, spec_trim, spec_has_prefix, spec_has_sub, spec_index_of, chars_of_str,
    split_lines, trim_spaces, has_prefix, has_sub, index_of_from, sub_chars, string_from_chars,
};
use crate::digits::{spec_dec, u64_dec_chars};

verus! {

/// The platform family, as far as GPU queries differ.
#[derive(Clone, Copy, Debug, PartialEq, Eq, Structural)]
pub enum HostOs {
    Windows,
    MacOs,
    Linux,
}

/// Device names from plain listing output: every non-blank line, trimmed.
/// This is the shape of the primary Windows query's output.
pub open spec fn spec_names_plain(lines: Seq<Seq<char>>) -> Seq<Seq<char>>
    decreases lines.len(),
{
    if lines.len() == 0 {
        Seq::empty()
    } else {
        let t = spec_trim(lines[0]);
        let rest = spec_names_plain(lines.drop_first());
        if t.len() > 0 {
            seq![t] + rest
        } else {
            rest
        }
    }
}

/// Device names from `Name=`-keyed listing output: the trimmed remainder
/// of every line that starts with `Name=`, where that remainder is not
/// blank. This is the shape of the fallback Windows query's output.
pub open spec fn spec_names_keyed(lines: Seq<Seq<char>>) -> Seq<Seq<char>>
    decreases lines.len(),
{
    if lines.len() == 0 {
        Seq::empty()
    } else {
        let rest = spec_names_keyed(lines.drop_first());
        if spec_has_prefix(lines[0], "Name="@) {
            let t = spec_trim(lines[0].subrange("Name="@.len() as int, lines[0].len() as int));
            if t.len() > 0 {
                seq![t] + rest
            } else {
                rest
            }
        } else {
            rest
        }
    }
}

/// The text between the first colon of a line and the next colon (or the
/// line's end); empty when the line has no colon.
pub open spec fn spec_colon_segment(line: Seq<char>) -> Seq<char> {
    let a = spec_index_of(line, ':');
    if a == line.len() {
        Seq::empty()
    } else {
        let rest = line.subrange(a + 1, line.len() as int);
        rest.subrange(0, spec_index_of(rest, ':'))
    }
}

/// Device names from `system_profiler` display output: the trimmed text
/// after the colon of every line that mentions a chipset model.
pub open spec fn spec_names_profiler(lines: Seq<Seq<char>>) -> Seq<Seq<char>>
    decreases lines.len(),
{
    if lines.len() == 0 {
        Seq::empty()
    } else {
        let rest = spec_names_profiler(lines.drop_first());
        if spec_has_sub(lines[0], "Chipset Model:"@) {
            seq![spec_trim(spec_colon_segment(lines[0]))] + rest
        } else {
            rest
        }
    }
}

/// Device names from PCI listing output: every line that mentions a
/// display controller, trimmed whole.
pub open spec fn spec_names_pci(lines: Seq<Seq<char>>) -> Seq<Seq<char>>
    decreases lines.len(),
{
    if lines.len() == 0 {
        Seq::empty()
    } else {
        let rest = spec_names_pci(lines.drop_first());
        if spec_has_sub(lines[0], "VGA compatible controller"@) || spec_has_sub(
            lines[0],
            "3D controller"@,
        ) || spec_has_sub(lines[0], "Display"@) {
            seq![spec_trim(lines[0])] + rest
        } else {
            rest
        }
    }
}

/// The device names that the query output `text` yields, by platform and
/// by whether it came from the primary or the fallback query.
pub open spec fn spec_extract_names(os: HostOs, primary: bool, text: Seq<char>) -> Seq<Seq<char>> {
    let lines = spec_split_lines(text);
    match os {
        HostOs::Windows => if primary {
            spec_names_plain(lines)
        } else {
            spec_names_keyed(lines)
        },
        HostOs::MacOs => spec_names_profiler(lines),
        HostOs::Linux => spec_names_pci(lines),
    }
}

/// One rendered inventory line: `  GPU <num>: <name>` and a line break.
pub open spec fn spec_gpu_item(name: Seq<char>, num: nat) -> Seq<char> {
    "  GPU "@ + spec_dec(num) + ": "@ + name + "\n"@
}

/// The rendered list of devices, numbered consecutively from `num`.
pub open spec fn spec_gpu_list(names: Seq<Seq<char>>, num: nat) -> Seq<char>
    decreases names.len(),
{
    if names.len() == 0 {
        Seq::empty()
    } else {
        spec_gpu_item(names[0], num) + spec_gpu_list(names.drop_first(), num + 1)
    }
}

/// A query output by reference, as its text, for the block contract.
pub open spec fn spec_opt_text(o: Option<&String>) -> Option<Seq<char>> {
    match o {
        Some(s) => Some(s@),
        None => None,
    }
}

/// The whole GPU block. The primary query's devices win; when it ran but
/// named none, the fallback query's devices are used; when both queries
/// ran and named none, the block records that no devices were detected;
/// when neither query produced output, that no information is available.
pub open spec fn spec_gpu_block(
    os: HostOs,
    primary: Option<Seq<char>>,
    fallback: Option<Seq<char>>,
) -> Seq<char> {
    let n1 = match primary {
        Some(p) => spec_extract_names(os, true, p),
        None => Seq::empty(),
    };
    let n2 = match fallback {
        Some(f) => spec_extract_names(os, false, f),
        None => Seq::empty(),
    };
    if n1.len() > 0 {
        spec_gpu_list(n1, 1)
    } else if n2.len() > 0 {
        spec_gpu_list(n2, 1)
    } else if primary is Some || fallback is Some {
        "  No GPU devices detected\n"@
    } else {
        "  No GPU information available\n"@
    }
}

fn names_plain_from(lines: &Vec<Vec<char>>, idx: usize) -> (r: Vec<Vec<char>>)
    requires
        idx <= lines@.len(),
    ensures
        r.deep_view() == spec_names_plain(
            lines.deep_view().subrange(idx as int, lines@.len() as int),
        ),
    decreases lines@.len() - idx,
{
    let ghost rest = lines.deep_view().subrange(idx as int, lines@.len() as int);
    if idx >= lines.len() {
        let r: Vec<Vec<char>> = Vec::new();
        proof {
            assert(r.deep_view() =~~= spec_names_plain(rest));
        }
        r
    } else {
        let t = trim_spaces(&lines[idx]);
        let mut tail = names_plain_from(lines, idx + 1);
        proof {
            assert(rest.drop_first() =~~= lines.deep_view().subrange(
                idx + 1,
                lines@.len() as int,
            ));
            assert(rest[0] == lines@[idx as int]@);
        }
        if t.len() > 0 {
            let mut r: Vec<Vec<char>> = Vec::new();
            r.push(t);
            r.append(&mut tail);
            proof {
                assert(r.deep_view() =~~= spec_names_plain(rest));
            }
            r
        } else {
            proof {
                assert(tail.deep_view() =~~= spec_names_plain(rest));
            }
            tail
        }
    }
}

fn names_keyed_from(lines: &Vec<Vec<char>>, idx: usize) -> (r: Vec<Vec<char>>)
    requires
        idx <= lines@.len(),
    ensures
        r.deep_view() == spec_names_keyed(
            lines.deep_view().subrange(idx as int, lines@.len() as int),
        ),
    decreases lines@.len() - idx,
{
    let ghost rest = lines.deep_view().subrange(idx as int, lines@.len() as int);
    if idx >= lines.len() {
        let r: Vec<Vec<char>> = Vec::new();
        proof {
            assert(r.deep_view() =~~= spec_names_keyed(rest));
        }
        r
    } else {
        let key = chars_of_str("Name=");
        let mut tail = names_keyed_from(lines, idx + 1);
        proof {
            assert(rest.drop_first() =~~= lines.deep_view().subrange(
                idx + 1,
                lines@.len() as int,
            ));
            assert(rest[0] == lines@[idx as int]@);
        }
        if has_prefix(&lines[idx], &key) {
            let line_len = lines[idx].len();
            let suffix = sub_chars(&lines[idx], key.len(), line_len);
            let t = trim_spaces(&suffix);
            if t.len() > 0 {
                let mut r: Vec<Vec<char>> = Vec::new();
                r.push(t);
                r.append(&mut tail);
                proof {
                    assert(r.deep_view() =~~= spec_names_keyed(rest));
                }
                r
            } else {
                proof {
                    assert(tail.deep_view() =~~= spec_names_keyed(rest));
                }
                tail
            }
        } else {
            proof {
                assert(tail.deep_view() =~~= spec_names_keyed(rest));
            }
            tail
        }
    }
}

fn colon_segment(line: &Vec<char>) -> (r: Vec<char>)
    ensures
        r@ == spec_colon_segment(line@),
{
    let n = line.len();
    let a = index_of_from(line, ':', 0);
    proof {
        assert(line@.subrange(0, n as int) =~= line@);
    }
    if a == n {
        let r: Vec<char> = Vec::new();
        proof {
            assert(r@ =~= spec_colon_segment(line@));
        }
        r
    } else {
        let b = index_of_from(line, ':', a + 1);
        let r = sub_chars(line, a + 1, b);
        proof {
            let rest = line@.subrange(a + 1, n as int);
            assert(rest.subrange(0, spec_index_of(rest, ':')) =~= line@.subrange(
                a + 1,
                b as int,
            ));
        }
        r
    }
}

fn names_profiler_from(lines: &Vec<Vec<char>>, idx: usize) -> (r: Vec<Vec<char>>)
    requires
        idx <= lines@.len(),
    ensures
        r.deep_view() == spec_names_profiler(
            lines.deep_view().subrange(idx as int, lines@.len() as int),
        ),
    decreases lines@.len() - idx,
{
    let ghost rest = lines.deep_view().subrange(idx as int, lines@.len() as int);
    if idx >= lines.len() {
        let r: Vec<Vec<char>> = Vec::new();
        proof {
            assert(r.deep_view() =~~= spec_names_profiler(rest));
        }
        r
    } else {
        let marker = chars_of_str("Chipset Model:");
        let mut tail = names_profiler_from(lines, idx + 1);
        proof {
            assert(rest.drop_first() =~~= lines.deep_view().subrange(
                idx + 1,
                lines@.len() as int,
            ));
            assert(rest[0] == lines@[idx as int]@);
        }
        if has_sub(&lines[idx], &marker) {
            let seg = colon_segment(&lines[idx]);
            let t = trim_spaces(&seg);
            let mut r: Vec<Vec<char>> = Vec::new();
            r.push(t);
            r.append(&mut tail);
            proof {
                assert(r.deep_view() =~~= spec_names_profiler(rest));
            }
            r
        } else {
            proof {
                assert(tail.deep_view() =~~= spec_names_profiler(rest));
            }
            tail
        }
    }
}

fn names_pci_from(lines: &Vec<Vec<char>>, idx: usize) -> (r: Vec<Vec<char>>)
    requires
        idx <= lines@.len(),
    ensures
        r.deep_view() == spec_names_pci(
            lines.deep_view().subrange(idx as int, lines@.len() as int),
        ),
    decreases lines@.len() - idx,
{
    let ghost rest = lines.deep_view().subrange(idx as int, lines@.len() as int);
    if idx >= lines.len() {
        let r: Vec<Vec<char>> = Vec::new();
        proof {
            assert(r.deep_view() =~~= spec_names_pci(rest));
        }
        r
    } else {
        let vga = chars_of_str("VGA compatible controller");
        let d3 = chars_of_str("3D controller");
        let disp = chars_of_str("Display");
        let mut tail = names_pci_from(lines, idx + 1);
        proof {
            assert(rest.drop_first() =~~= lines.deep_view().subrange(
                idx + 1,
                lines@.len() as int,
            ));
            assert(rest[0] == lines@[idx as int]@);
        }
        if has_sub(&lines[idx], &vga) || has_sub(&lines[idx], &d3) || has_sub(
            &lines[idx],
            &disp,
        ) {
            let t = trim_spaces(&lines[idx]);
            let mut r: Vec<Vec<char>> = Vec::new();
            r.push(t);
            r.append(&mut tail);
            proof {
                assert(r.deep_view() =~~= spec_names_pci(rest));
            }
            r
        } else {
            proof {
                assert(tail.deep_view() =~~= spec_names_pci(rest));
            }
            tail
        }
    }
}

/// The device names that query output `text` yields, by platform and by
/// whether it came from the primary or the fallback query.
pub fn extract_names(os: HostOs, primary: bool, text: &str) -> (r: Vec<Vec<char>>)
    ensures
        r.deep_view() == spec_extract_names(os, primary, text@),
{
    let cs = chars_of_str(text);
    let lines = split_lines(&cs);
    proof {
        assert(lines.deep_view().subrange(0, lines@.len() as int) =~~= lines.deep_view());
    }
    match os {
        HostOs::Windows => {
            if primary {
                names_plain_from(&lines, 0)
            } else {
                names_keyed_from(&lines, 0)
            }
        },
        HostOs::MacOs => names_profiler_from(&lines, 0),
        HostOs::Linux => names_pci_from(&lines, 0),
    }
}

fn gpu_list_chars(names: &Vec<Vec<char>>, idx: usize, num: u64) -> (r: Vec<char>)
    requires
        idx <= names@.len(),
        num as int == idx as int + 1,
    ensures
        r@ == spec_gpu_list(
            names.deep_view().subrange(idx as int, names@.len() as int),
            num as nat,
        ),
    decreases names@.len() - idx,
{
    let ghost rest = names.deep_view().subrange(idx as int, names@.len() as int);
    if idx >= names.len() {
        let r: Vec<char> = Vec::new();
        proof {
            assert(r@ =~= spec_gpu_list(rest, num as nat));
        }
        r
    } else {
        let mut v = chars_of_str("  GPU ");
        let mut d = u64_dec_chars(num);
        v.append(&mut d);
        let mut c = chars_of_str(": ");
        v.append(&mut c);
        let name_len = names[idx].len();
        let mut name = sub_chars(&names[idx], 0, name_len);
        v.append(&mut name);
        v.push('\n');
        let n = names.len();
        let mut tail = if idx + 1 < n {
            gpu_list_chars(names, idx + 1, num + 1)
        } else {
            Vec::new()
        };
        v.append(&mut tail);
        proof {
            reveal_strlit("\n");
            assert("\n"@ =~= seq!['\n']);
            assert(rest.drop_first() =~~= names.deep_view().subrange(
                idx + 1,
                names@.len() as int,
            ));
            assert(rest[0] == names@[idx as int]@);
            assert(names@[idx as int]@.subrange(0, name_len as int) =~= names@[idx as int]@);
            if idx + 1 >= n {
                assert(rest.drop_first().len() == 0);
            }
            assert(v@ =~= spec_gpu_item(rest[0], num as nat) + spec_gpu_list(
                rest.drop_first(),
                (num + 1) as nat,
            ));
            assert(v@ =~= spec_gpu_list(rest, num as nat));
        }
        v
    }
}

/// Render the whole GPU block from the raw query outputs, per
/// [`spec_gpu_block`]: primary devices first, the fallback's when the
/// primary named none, a "no devices" note when the queries ran and named
/// none, and a "no information" note when neither query produced output.
pub fn gpu_block(os: HostOs, primary: Option<&String>, fallback: Option<&String>) -> (r: String)
    ensures
        r@ == spec_gpu_block(os, spec_opt_text(primary), spec_opt_text(fallback)),
{
    let n1: Vec<Vec<char>> = match primary {
        Some(p) => extract_names(os, true, p.as_str()),
        None => Vec::new(),
    };
    proof {
        if primary is None {
            assert(n1.deep_view() =~~= Seq::<Seq<char>>::empty());
        }
    }
    if n1.len() > 0 {
        proof {
            assert(n1.deep_view().subrange(0, n1@.len() as int) =~~= n1.deep_view());
        }
        let v = gpu_list_chars(&n1, 0, 1);
        return string_from_chars(&v);
    }
    let n2: Vec<Vec<char>> = match fallback {
        Some(f) => extract_names(os, false, f.as_str()),
        None => Vec::new(),
    };
    proof {
        if fallback is None {
            assert(n2.deep_view() =~~= Seq::<Seq<char>>::empty());
        }
    }
    if n2.len() > 0 {
        proof {
            assert(n2.deep_view().subrange(0, n2@.len() as int) =~~= n2.deep_view());
        }
        let v = gpu_list_chars(&n2, 0, 1);
        return string_from_chars(&v);
    }
    if primary.is_some() || fallback.is_some() {
        String::from_str("  No GPU devices detected\n")
    } else {
        String::from_str("  No GPU information available\n")
    }
}

} // verus!
