//! Reading the node's hardware and software from the text that the system
//! reports: the CPU model from `/proc/cpuinfo`, the GPUs and the CUDA
//! version from the output of `nvidia-smi`. Running the commands and
//! reading the files is the caller's part.

use vstd::prelude::*;
use vstd::string::StringExecFns;
use crate::types::SoftwareConfig;
use crate::text::{
    chars_of, first_occurrence, lines, lines_of, parse_u32, parse_u32_chars,
    second_piece, second_piece_exec, split, split_of, starts_with, starts_with_chars, string_from_chars,
    trim, trim_chars, find_occurrence,
};

verus! {

/// Reads the node's hardware and software from what the system reports.
pub struct SystemInfoCollector;

/// A GPU that `nvidia-smi` lists.
#[derive(Clone, Debug)]
pub struct DetectedGpu {
    pub name: String,
    pub vram_gb: u32,
}

/// The index of the first line that starts with `p`, or the number of lines.
pub open spec fn first_with_prefix(ls: Seq<Seq<char>>, p: Seq<char>) -> int
    decreases ls.len(),
{
    if ls.len() == 0 {
        0
    } else if starts_with(ls[0], p) {
        0
    } else {
        1 + first_with_prefix(ls.drop_first(), p)
    }
}

/// The CPU model that `/proc/cpuinfo` names: the text after the first `:`
/// (up to the next one) of the first line that starts with `model name`,
/// trimmed; `Unknown CPU` where that line or its `:` is missing.
pub open spec fn cpu_model(cpuinfo: Seq<char>) -> Seq<char> {
    let ls = lines(cpuinfo);
    let k = first_with_prefix(ls, "model name"@);
    if 0 <= k < ls.len() && split(ls[k], ':').len() > 1 {
        trim(split(ls[k], ':')[1])
    } else {
        "Unknown CPU"@
    }
}

proof fn lemma_first_with_prefix_unique(ls: Seq<Seq<char>>, p: Seq<char>, k: int)
    requires
        0 <= k <= ls.len(),
        forall|j: int| 0 <= j < k ==> !starts_with(#[trigger] ls[j], p),
        k < ls.len() ==> starts_with(ls[k], p),
    ensures
        first_with_prefix(ls, p) == k,
    decreases ls.len(),
{
    if ls.len() > 0 && k > 0 {
        assert forall|j: int| 0 <= j < k - 1 implies !starts_with(#[trigger] ls.drop_first()[j], p) by {
            assert(ls.drop_first()[j] == ls[j + 1]);
        }
        lemma_first_with_prefix_unique(ls.drop_first(), p, k - 1);
    }
}

impl SystemInfoCollector {
    /// The CPU model named in the text of `/proc/cpuinfo`.
    pub fn cpu_model_from_cpuinfo(cpuinfo: &str) -> (r: String)
        ensures
            r@ == cpu_model(cpuinfo@),
    {
        let text = chars_of(cpuinfo);
        let ls = lines_of(&text);
        let prefix = chars_of("model name");
        let ghost lsv = ls@.map_values(|l: Vec<char>| l@);
        let mut k: usize = 0;
        while k < ls.len() && !starts_with_chars(&ls[k], &prefix)
            invariant
                k <= ls@.len(),
                lsv == ls@.map_values(|l: Vec<char>| l@),
                prefix@ == "model name"@,
                forall|j: int| 0 <= j < k ==> !starts_with(#[trigger] lsv[j], prefix@),
            decreases ls@.len() - k,
        {
            assert(lsv[k as int] == ls@[k as int]@);
            k = k + 1;
        }
        proof {
            if k < ls@.len() {
                assert(lsv[k as int] == ls@[k as int]@);
            }
            lemma_first_with_prefix_unique(lsv, prefix@, k as int);
        }
        if k < ls.len() {
            let parts = split_of(&ls[k], ':');
            assert(lsv[k as int] == ls@[k as int]@);
            if parts.len() > 1 {
                assert(parts@.map_values(|l: Vec<char>| l@)[1] == parts@[1]@);
                return string_from_chars(&trim_chars(&parts[1]));
            }
        }
        <String as StringExecFns>::from_str("Unknown CPU")
    }
}

/// The GPU that one line of `nvidia-smi --query-gpu=name,memory.total
/// --format=csv,noheader,nounits` describes: the comma-separated fields,
/// trimmed, give the name and the memory in MiB (0 where it does not
/// parse); a line with fewer than two fields, or with under 1 GiB, lists none.
pub open spec fn gpu_of_line(l: Seq<char>) -> Option<(Seq<char>, u32)> {
    let parts = split(l, ',');
    if parts.len() >= 2 {
        let mb: u32 = match parse_u32(trim(parts[1])) {
            Some(v) => v,
            None => 0,
        };
        if mb / 1024 > 0 {
            Some((trim(parts[0]), (mb / 1024) as u32))
        } else {
            None
        }
    } else {
        None
    }
}

/// The GPUs that the lines describe, in order.
pub open spec fn gpus_of_lines(ls: Seq<Seq<char>>) -> Seq<(Seq<char>, u32)>
    decreases ls.len(),
{
    if ls.len() == 0 {
        seq![]
    } else {
        gpus_of_lines(ls.drop_last()) + match gpu_of_line(ls.last()) {
            Some(g) => seq![g],
            None => Seq::<(Seq<char>, u32)>::empty(),
        }
    }
}

/// The GPUs of the query's output; none where the query did not run.
pub open spec fn detected_gpus(smi_output: Option<Seq<char>>) -> Seq<(Seq<char>, u32)> {
    match smi_output {
        Some(o) => gpus_of_lines(lines(o)),
        None => seq![],
    }
}

pub open spec fn gpus_view(gs: Seq<DetectedGpu>) -> Seq<(Seq<char>, u32)> {
    gs.map_values(|g: DetectedGpu| (g.name@, g.vram_gb))
}

fn gpu_from_line(l: &Vec<char>) -> (r: Option<DetectedGpu>)
    ensures
        match r {
            Some(g) => gpu_of_line(l@) == Some((g.name@, g.vram_gb)),
            None => gpu_of_line(l@) is None,
        },
{
    let parts = split_of(l, ',');
    let ghost pv = parts@.map_values(|p: Vec<char>| p@);
    if parts.len() >= 2 {
        assert(pv[0] == parts@[0]@ && pv[1] == parts@[1]@);
        let mb: u32 = match parse_u32_chars(&trim_chars(&parts[1])) {
            Some(v) => v,
            None => 0,
        };
        let gb = mb / 1024;
        if gb > 0 {
            let name = string_from_chars(&trim_chars(&parts[0]));
            return Some(DetectedGpu { name, vram_gb: gb });
        }
    }
    None
}

impl SystemInfoCollector {
    /// The GPUs that `nvidia-smi` lists in its output, `None` where it did not run.
    pub fn detect_gpus(smi_output: Option<&str>) -> (gs: Vec<DetectedGpu>)
        ensures
            gpus_view(gs@) == detected_gpus(match smi_output {
                Some(o) => Some(o@),
                None => None,
            }),
    {
        let mut gs: Vec<DetectedGpu> = Vec::new();
        match smi_output {
            None => {
                assert(gpus_view(gs@) =~= Seq::<(Seq<char>, u32)>::empty());
                gs
            },
            Some(o) => {
                let text = chars_of(o);
                let ls = lines_of(&text);
                let ghost lsv = ls@.map_values(|l: Vec<char>| l@);
                let mut i: usize = 0;
                while i < ls.len()
                    invariant
                        i <= ls@.len(),
                        lsv == ls@.map_values(|l: Vec<char>| l@),
                        gpus_view(gs@) == gpus_of_lines(lsv.take(i as int)),
                    decreases ls@.len() - i,
                {
                    let ghost before = gs@;
                    let g = gpu_from_line(&ls[i]);
                    proof {
                        assert(lsv.take(i + 1).drop_last() =~= lsv.take(i as int));
                        assert(lsv.take(i + 1).last() == ls@[i as int]@);
                    }
                    match g {
                        Some(gpu) => {
                            gs.push(gpu);
                            assert(gpus_view(gs@) =~= gpus_view(before) + seq![(gs@.last().name@, gs@.last().vram_gb)]);
                        },
                        None => {},
                    }
                    assert(gpus_view(gs@) =~= gpus_of_lines(lsv.take(i + 1)));
                    i = i + 1;
                }
                assert(lsv.take(ls@.len() as int) =~= lsv);
                gs
            },
        }
    }
}

/// The CUDA version that `nvidia-smi` reports: the text after `CUDA Version:`
/// on the first line that holds it (up to a further occurrence), trimmed;
/// `Not installed` where no line holds it or the command did not run.
pub open spec fn cuda_version(smi_output: Option<Seq<char>>) -> Seq<char> {
    match smi_output {
        None => "Not installed"@,
        Some(o) => {
            let ls = lines(o);
            let k = first_holding(ls, "CUDA Version:"@);
            if 0 <= k < ls.len() {
                match second_piece(ls[k], "CUDA Version:"@) {
                    Some(v) => trim(v),
                    None => "Not installed"@,
                }
            } else {
                "Not installed"@
            }
        },
    }
}

/// The index of the first line in which `p` occurs, or the number of lines.
pub open spec fn first_holding(ls: Seq<Seq<char>>, p: Seq<char>) -> int
    decreases ls.len(),
{
    if ls.len() == 0 {
        0
    } else if first_occurrence(ls[0], p) >= 0 {
        0
    } else {
        1 + first_holding(ls.drop_first(), p)
    }
}

proof fn lemma_first_holding_unique(ls: Seq<Seq<char>>, p: Seq<char>, k: int)
    requires
        0 <= k <= ls.len(),
        forall|j: int| 0 <= j < k ==> first_occurrence(#[trigger] ls[j], p) < 0,
        k < ls.len() ==> first_occurrence(ls[k], p) >= 0,
    ensures
        first_holding(ls, p) == k,
    decreases ls.len(),
{
    if ls.len() > 0 && k > 0 {
        assert forall|j: int| 0 <= j < k - 1 implies first_occurrence(#[trigger] ls.drop_first()[j], p) < 0 by {
            assert(ls.drop_first()[j] == ls[j + 1]);
        }
        lemma_first_holding_unique(ls.drop_first(), p, k - 1);
    }
}

impl SystemInfoCollector {
    /// The CUDA version in the output of `nvidia-smi`, `None` where it did not run.
    pub fn cuda_version_from_smi(smi_output: Option<&str>) -> (r: String)
        ensures
            r@ == cuda_version(match smi_output {
                Some(o) => Some(o@),
                None => None,
            }),
    {
        match smi_output {
            None => <String as StringExecFns>::from_str("Not installed"),
            Some(o) => {
                let text = chars_of(o);
                let ls = lines_of(&text);
                let pat = chars_of("CUDA Version:");
                let ghost lsv = ls@.map_values(|l: Vec<char>| l@);
                let mut k: usize = 0;
                while k < ls.len() && find_occurrence(&ls[k], &pat).is_none()
                    invariant
                        k <= ls@.len(),
                        lsv == ls@.map_values(|l: Vec<char>| l@),
                        pat@ == "CUDA Version:"@,
                        forall|j: int| 0 <= j < k ==> first_occurrence(#[trigger] lsv[j], pat@) < 0,
                    decreases ls@.len() - k,
                {
                    assert(lsv[k as int] == ls@[k as int]@);
                    k = k + 1;
                }
                proof {
                    if k < ls@.len() {
                        assert(lsv[k as int] == ls@[k as int]@);
                    }
                    lemma_first_holding_unique(lsv, pat@, k as int);
                }
                if k < ls.len() {
                    assert(lsv[k as int] == ls@[k as int]@);
                    match second_piece_exec(&ls[k], &pat) {
                        Some(v) => return string_from_chars(&trim_chars(&v)),
                        None => {},
                    }
                }
                <String as StringExecFns>::from_str("Not installed")
            },
        }
    }
}


impl SystemInfoCollector {
    /// The node's software, from the output of `nvidia-smi` (`None` where it
    /// did not run): its CUDA version.
    pub fn software_info(smi_output: Option<&str>) -> (c: SoftwareConfig)
        ensures
            c.cuda_version@ == cuda_version(match smi_output {
                Some(o) => Some(o@),
                None => None,
            }),
    {
        SoftwareConfig { cuda_version: Self::cuda_version_from_smi(smi_output) }
    }
}

} // verus!
