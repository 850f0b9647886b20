//! The context of one batch chunk: every file and argument bundle that the
//! batch, compression and first recursion stages of the chunk work with.

use crate::args::{
    batch_circom_args, blank_circom_args, blank_stark_args, chunk_file_name, chunk_name,
    circom_args, stark_args, task_file, task_file_path, wasm_file, wasm_file_path,
    CircomCompileArgs, CircomCompileArgsView, StarkProveArgs, StarkProveArgsView,
};
use crate::stage::{batch_path, Stage};
use crate::text::{join, joined};
use vstd::prelude::*;
use vstd::string::*;

verus! {

#[derive(Debug, PartialEq, Eq)]
pub struct BatchContext {
    pub basedir: String,
    pub l2_batch_data: String,
    pub batch_circom: CircomCompileArgs,
    pub batch_stark: StarkProveArgs,
    pub batch_struct: String,
    pub c12_circom: CircomCompileArgs,
    pub c12_stark: StarkProveArgs,
    pub c12_struct: String,
    pub chunk_id: String,
    pub evm_output: String,
    pub recursive1_circom: CircomCompileArgs,
    pub recursive1_stark: StarkProveArgs,
    pub task_id: String,
    pub task_name: String,
    pub force_bits: usize,
}

pub struct BatchContextView {
    pub basedir: Seq<char>,
    pub l2_batch_data: Seq<char>,
    pub batch_circom: CircomCompileArgsView,
    pub batch_stark: StarkProveArgsView,
    pub batch_struct: Seq<char>,
    pub c12_circom: CircomCompileArgsView,
    pub c12_stark: StarkProveArgsView,
    pub c12_struct: Seq<char>,
    pub chunk_id: Seq<char>,
    pub evm_output: Seq<char>,
    pub recursive1_circom: CircomCompileArgsView,
    pub recursive1_stark: StarkProveArgsView,
    pub task_id: Seq<char>,
    pub task_name: Seq<char>,
    pub force_bits: usize,
}

/// The files and bundles of a context that are derived from its identifiers.
pub struct DerivedPaths {
    pub batch_circom: CircomCompileArgsView,
    pub batch_stark: StarkProveArgsView,
    pub batch_struct: Seq<char>,
    pub c12_circom: CircomCompileArgsView,
    pub c12_stark: StarkProveArgsView,
    pub c12_struct: Seq<char>,
    pub evm_output: Seq<char>,
    pub recursive1_circom: CircomCompileArgsView,
    pub recursive1_stark: StarkProveArgsView,
}

/// The curve of every stage of a chunk.
pub open spec fn stage_curve() -> Seq<char> {
    "GL"@
}

/// The directory that the execution of the chunk's task writes to: the
/// sibling of the chunk's directory that is named after the task.
pub open spec fn evm_output_dir(
    basedir: Seq<char>,
    task_id: Seq<char>,
    task_name: Seq<char>,
    chunk_id: Seq<char>,
) -> Seq<char> {
    joined(joined(joined(basedir, batch_path(task_id, chunk_id)), ".."@), task_name)
}

/// The prover arguments of the batch stage of one chunk.
pub open spec fn batch_stark_args(
    basedir: Seq<char>,
    task_id: Seq<char>,
    task_name: Seq<char>,
    chunk_id: Seq<char>,
) -> StarkProveArgsView {
    let task_path = batch_path(task_id, chunk_id);
    let evm_output = evm_output_dir(basedir, task_id, task_name, chunk_id);
    let name = chunk_name(task_name, chunk_id);
    StarkProveArgsView {
        commit_file: joined(evm_output, name) + "/commits.bin"@,
        const_file: evm_output + "/constants.bin"@,
        curve_type: stage_curve(),
        exec_file: task_file(basedir, task_path, name, ".exec"@),
        pil_file: task_file(basedir, task_path, name, ".pil"@),
        piljson: task_file(basedir, task_path, name, ".pil.json"@),
        r1cs_file: task_file(basedir, task_path, name, ".r1cs"@),
        wasm_file: wasm_file(basedir, task_path, name),
        zkin: joined(joined(evm_output, name), task_name) + "_proof.bin"@,
    }
}

/// Everything that a chunk's context derives from its four identifiers.
pub open spec fn derived_paths(
    basedir: Seq<char>,
    task_id: Seq<char>,
    task_name: Seq<char>,
    chunk_id: Seq<char>,
) -> DerivedPaths {
    let task_path = batch_path(task_id, chunk_id);
    let evm_output = evm_output_dir(basedir, task_id, task_name, chunk_id);
    let c12_name = task_name + ".c12"@;
    let r1_name = task_name + ".recursive1"@;
    DerivedPaths {
        batch_circom: batch_circom_args(
            evm_output,
            basedir,
            task_path,
            task_name,
            chunk_id,
            stage_curve(),
        ),
        batch_stark: batch_stark_args(basedir, task_id, task_name, chunk_id),
        batch_struct: joined(basedir, task_name) + "/batch.stark_struct.json"@,
        c12_circom: circom_args(basedir, task_path, c12_name, stage_curve()),
        c12_stark: stark_args(basedir, task_path, c12_name, stage_curve()),
        c12_struct: joined(basedir, task_name) + "/c12.stark_struct.json"@,
        evm_output,
        recursive1_circom: circom_args(basedir, task_path, r1_name, stage_curve()),
        recursive1_stark: stark_args(basedir, task_path, r1_name, stage_curve()),
    }
}

/// The context of the chunk `chunk_id` of the task `task_id`.
pub open spec fn batch_context(
    basedir: Seq<char>,
    task_id: Seq<char>,
    task_name: Seq<char>,
    chunk_id: Seq<char>,
    l2_batch_data: Seq<char>,
    force_bits: usize,
) -> BatchContextView {
    let d = derived_paths(basedir, task_id, task_name, chunk_id);
    BatchContextView {
        basedir,
        l2_batch_data,
        batch_circom: d.batch_circom,
        batch_stark: d.batch_stark,
        batch_struct: d.batch_struct,
        c12_circom: d.c12_circom,
        c12_stark: d.c12_stark,
        c12_struct: d.c12_struct,
        chunk_id,
        evm_output: d.evm_output,
        recursive1_circom: d.recursive1_circom,
        recursive1_stark: d.recursive1_stark,
        task_id,
        task_name,
        force_bits,
    }
}

impl BatchContextView {
    /// The derived part of a context.
    pub open spec fn derived(self) -> DerivedPaths {
        DerivedPaths {
            batch_circom: self.batch_circom,
            batch_stark: self.batch_stark,
            batch_struct: self.batch_struct,
            c12_circom: self.c12_circom,
            c12_stark: self.c12_stark,
            c12_struct: self.c12_struct,
            evm_output: self.evm_output,
            recursive1_circom: self.recursive1_circom,
            recursive1_stark: self.recursive1_stark,
        }
    }
}

impl View for BatchContext {
    type V = BatchContextView;

    open spec fn view(&self) -> BatchContextView {
        BatchContextView {
            basedir: self.basedir@,
            l2_batch_data: self.l2_batch_data@,
            batch_circom: self.batch_circom@,
            batch_stark: self.batch_stark@,
            batch_struct: self.batch_struct@,
            c12_circom: self.c12_circom@,
            c12_stark: self.c12_stark@,
            c12_struct: self.c12_struct@,
            chunk_id: self.chunk_id@,
            evm_output: self.evm_output@,
            recursive1_circom: self.recursive1_circom@,
            recursive1_stark: self.recursive1_stark@,
            task_id: self.task_id@,
            task_name: self.task_name@,
            force_bits: self.force_bits,
        }
    }
}

impl Default for BatchContext {
    /// The context in which every string is empty.
    fn default() -> (ctx: Self)
        ensures
            ctx@.basedir.len() == 0,
            ctx@.l2_batch_data.len() == 0,
            ctx@.task_id.len() == 0,
            ctx@.task_name.len() == 0,
            ctx@.chunk_id.len() == 0,
            ctx@.force_bits == 0,
            ctx@.evm_output.len() == 0,
            ctx@.batch_struct.len() == 0,
            ctx@.c12_struct.len() == 0,
            ctx@.batch_circom == blank_circom_args(),
            ctx@.c12_circom == blank_circom_args(),
            ctx@.recursive1_circom == blank_circom_args(),
            ctx@.batch_stark == blank_stark_args(),
            ctx@.c12_stark == blank_stark_args(),
            ctx@.recursive1_stark == blank_stark_args(),
    {
        BatchContext {
            basedir: String::new(),
            l2_batch_data: String::new(),
            batch_circom: CircomCompileArgs::default(),
            batch_stark: StarkProveArgs::default(),
            batch_struct: String::new(),
            c12_circom: CircomCompileArgs::default(),
            c12_stark: StarkProveArgs::default(),
            c12_struct: String::new(),
            chunk_id: String::new(),
            evm_output: String::new(),
            recursive1_circom: CircomCompileArgs::default(),
            recursive1_stark: StarkProveArgs::default(),
            task_id: String::new(),
            task_name: String::new(),
            force_bits: 0,
        }
    }
}

impl Clone for BatchContext {
    fn clone(&self) -> (res: Self)
        ensures
            res == *self,
    {
        BatchContext {
            basedir: self.basedir.clone(),
            l2_batch_data: self.l2_batch_data.clone(),
            batch_circom: self.batch_circom.clone(),
            batch_stark: self.batch_stark.clone(),
            batch_struct: self.batch_struct.clone(),
            c12_circom: self.c12_circom.clone(),
            c12_stark: self.c12_stark.clone(),
            c12_struct: self.c12_struct.clone(),
            chunk_id: self.chunk_id.clone(),
            evm_output: self.evm_output.clone(),
            recursive1_circom: self.recursive1_circom.clone(),
            recursive1_stark: self.recursive1_stark.clone(),
            task_id: self.task_id.clone(),
            task_name: self.task_name.clone(),
            force_bits: self.force_bits,
        }
    }
}

impl BatchContext {
    /// Derives the context of one chunk. Nothing is read or written: the
    /// result is a function of the arguments.
    pub fn new(
        basedir: &str,
        task_id: &str,
        task_name: &str,
        chunk_id: &str,
        l2_batch_data: String,
        force_bits: usize,
    ) -> (ctx: Self)
        ensures
            ctx@ == batch_context(
                basedir@,
                task_id@,
                task_name@,
                chunk_id@,
                l2_batch_data@,
                force_bits,
            ),
    {
        let task_path = Stage::Batch(
            String::from_str(task_id),
            String::from_str(chunk_id),
            l2_batch_data.clone(),
        ).path();
        let c12_task_name = String::from_str(task_name).concat(".c12");
        let r1_task_name = String::from_str(task_name).concat(".recursive1");
        let evm_output = join(
            join(join(basedir, task_path.as_str()).as_str(), "..").as_str(),
            task_name,
        );
        let name = chunk_file_name(task_name, chunk_id);

        BatchContext {
            basedir: String::from_str(basedir),
            l2_batch_data,
            task_id: String::from_str(task_id),
            task_name: String::from_str(task_name),
            batch_struct: join(basedir, task_name).concat("/batch.stark_struct.json"),
            c12_struct: join(basedir, task_name).concat("/c12.stark_struct.json"),
            batch_circom: CircomCompileArgs::new_batch(
                evm_output.as_str(),
                basedir,
                task_path.as_str(),
                task_name,
                chunk_id,
                "GL",
            ),
            batch_stark: StarkProveArgs {
                commit_file: join(evm_output.as_str(), name.as_str()).concat("/commits.bin"),
                const_file: evm_output.clone().concat("/constants.bin"),
                curve_type: String::from_str("GL"),
                exec_file: task_file_path(basedir, task_path.as_str(), name.as_str(), ".exec"),
                pil_file: task_file_path(basedir, task_path.as_str(), name.as_str(), ".pil"),
                piljson: task_file_path(basedir, task_path.as_str(), name.as_str(), ".pil.json"),
                r1cs_file: task_file_path(basedir, task_path.as_str(), name.as_str(), ".r1cs"),
                wasm_file: wasm_file_path(basedir, task_path.as_str(), name.as_str()),
                zkin: join(join(evm_output.as_str(), name.as_str()).as_str(), task_name).concat(
                    "_proof.bin",
                ),
            },
            evm_output: evm_output.clone(),
            chunk_id: String::from_str(chunk_id),
            c12_stark: StarkProveArgs::new(
                basedir,
                task_path.as_str(),
                c12_task_name.as_str(),
                "GL",
            ),
            c12_circom: CircomCompileArgs::new(
                basedir,
                task_path.as_str(),
                c12_task_name.as_str(),
                "GL",
            ),
            recursive1_stark: StarkProveArgs::new(
                basedir,
                task_path.as_str(),
                r1_task_name.as_str(),
                "GL",
            ),
            recursive1_circom: CircomCompileArgs::new(
                basedir,
                task_path.as_str(),
                r1_task_name.as_str(),
                "GL",
            ),
            force_bits,
        }
    }
}

/// A chunk's derived files depend on its four identifiers alone: contexts
/// built from the same base directory, task id, task name and chunk id agree
/// on every derived path, whatever payload and bit width they carry.
pub proof fn lemma_derived_paths_reproducible(
    basedir: Seq<char>,
    task_id: Seq<char>,
    task_name: Seq<char>,
    chunk_id: Seq<char>,
    payload_a: Seq<char>,
    bits_a: usize,
    payload_b: Seq<char>,
    bits_b: usize,
)
    ensures
        batch_context(basedir, task_id, task_name, chunk_id, payload_a, bits_a).derived()
            == batch_context(basedir, task_id, task_name, chunk_id, payload_b, bits_b).derived(),
        batch_context(basedir, task_id, task_name, chunk_id, payload_a, bits_a).derived()
            == derived_paths(basedir, task_id, task_name, chunk_id),
{
}

} // verus!
