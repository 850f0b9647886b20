//! The argument bundles that the circuit compiler and the STARK prover take.

use crate::text::{join, joined};
use vstd::prelude::*;
use vstd::string::*;

verus! {

/// What the circuit compiler is run with.
#[derive(Debug, PartialEq, Eq)]
pub struct CircomCompileArgs {
    pub circom_file: String,
    pub output: String,
    pub link_directory: String,
    pub curve_type: String,
}

pub struct CircomCompileArgsView {
    pub circom_file: Seq<char>,
    pub output: Seq<char>,
    pub link_directory: Seq<char>,
    pub curve_type: Seq<char>,
}

/// What the STARK prover is run with.
#[derive(Debug, PartialEq, Eq)]
pub struct StarkProveArgs {
    pub commit_file: String,
    pub const_file: String,
    pub curve_type: String,
    pub exec_file: String,
    pub pil_file: String,
    pub piljson: String,
    pub r1cs_file: String,
    pub wasm_file: String,
    pub zkin: String,
}

pub struct StarkProveArgsView {
    pub commit_file: Seq<char>,
    pub const_file: Seq<char>,
    pub curve_type: Seq<char>,
    pub exec_file: Seq<char>,
    pub pil_file: Seq<char>,
    pub piljson: Seq<char>,
    pub r1cs_file: Seq<char>,
    pub wasm_file: Seq<char>,
    pub zkin: Seq<char>,
}

/// The file `{basedir}/{task_path}/{stem}{ext}`.
pub open spec fn task_file(
    basedir: Seq<char>,
    task_path: Seq<char>,
    stem: Seq<char>,
    ext: Seq<char>,
) -> Seq<char> {
    joined(joined(basedir, task_path), stem) + ext
}

/// The WebAssembly witness generator `{basedir}/{task_path}/{stem}_js/{stem}.wasm`.
pub open spec fn wasm_file(basedir: Seq<char>, task_path: Seq<char>, stem: Seq<char>) -> Seq<
    char,
> {
    joined(joined(basedir, task_path), stem) + "_js/"@ + stem + ".wasm"@
}

/// The name that the files of one chunk start with: `{task_name}_chunk_{chunk_id}`.
pub open spec fn chunk_name(task_name: Seq<char>, chunk_id: Seq<char>) -> Seq<char> {
    task_name + "_chunk_"@ + chunk_id
}

/// The compiler arguments of a circuit named `task_name` in the task's directory.
pub open spec fn circom_args(
    basedir: Seq<char>,
    task_path: Seq<char>,
    task_name: Seq<char>,
    curve: Seq<char>,
) -> CircomCompileArgsView {
    CircomCompileArgsView {
        circom_file: task_file(basedir, task_path, task_name, ".circom"@),
        output: joined(basedir, task_path),
        link_directory: joined(basedir, "circuits"@),
        curve_type: curve,
    }
}

/// The compiler arguments of one chunk's batch circuit, which is generated
/// into the execution output directory.
pub open spec fn batch_circom_args(
    evm_output: Seq<char>,
    basedir: Seq<char>,
    task_path: Seq<char>,
    task_name: Seq<char>,
    chunk_id: Seq<char>,
    curve: Seq<char>,
) -> CircomCompileArgsView {
    CircomCompileArgsView {
        circom_file: joined(evm_output, chunk_name(task_name, chunk_id)) + ".circom"@,
        output: joined(basedir, task_path),
        link_directory: joined(basedir, "circuits"@),
        curve_type: curve,
    }
}

/// The prover arguments of a circuit named `task_name` in the task's directory.
pub open spec fn stark_args(
    basedir: Seq<char>,
    task_path: Seq<char>,
    task_name: Seq<char>,
    curve: Seq<char>,
) -> StarkProveArgsView {
    StarkProveArgsView {
        commit_file: task_file(basedir, task_path, task_name, ".cm"@),
        const_file: task_file(basedir, task_path, task_name, ".const"@),
        curve_type: curve,
        exec_file: task_file(basedir, task_path, task_name, ".exec"@),
        pil_file: task_file(basedir, task_path, task_name, ".pil"@),
        piljson: task_file(basedir, task_path, task_name, ".pil.json"@),
        r1cs_file: task_file(basedir, task_path, task_name, ".r1cs"@),
        wasm_file: wasm_file(basedir, task_path, task_name),
        zkin: task_file(basedir, task_path, task_name, ".zkin"@),
    }
}

impl View for CircomCompileArgs {
    type V = CircomCompileArgsView;

    open spec fn view(&self) -> CircomCompileArgsView {
        CircomCompileArgsView {
            circom_file: self.circom_file@,
            output: self.output@,
            link_directory: self.link_directory@,
            curve_type: self.curve_type@,
        }
    }
}

impl View for StarkProveArgs {
    type V = StarkProveArgsView;

    open spec fn view(&self) -> StarkProveArgsView {
        StarkProveArgsView {
            commit_file: self.commit_file@,
            const_file: self.const_file@,
            curve_type: self.curve_type@,
            exec_file: self.exec_file@,
            pil_file: self.pil_file@,
            piljson: self.piljson@,
            r1cs_file: self.r1cs_file@,
            wasm_file: self.wasm_file@,
            zkin: self.zkin@,
        }
    }
}

/// Compiler arguments in which nothing is filled in.
pub open spec fn blank_circom_args() -> CircomCompileArgsView {
    CircomCompileArgsView {
        circom_file: Seq::empty(),
        output: Seq::empty(),
        link_directory: Seq::empty(),
        curve_type: Seq::empty(),
    }
}

/// Prover arguments in which nothing is filled in.
pub open spec fn blank_stark_args() -> StarkProveArgsView {
    StarkProveArgsView {
        commit_file: Seq::empty(),
        const_file: Seq::empty(),
        curve_type: Seq::empty(),
        exec_file: Seq::empty(),
        pil_file: Seq::empty(),
        piljson: Seq::empty(),
        r1cs_file: Seq::empty(),
        wasm_file: Seq::empty(),
        zkin: Seq::empty(),
    }
}

impl Default for CircomCompileArgs {
    fn default() -> (args: Self)
        ensures
            args@ == blank_circom_args(),
    {
        CircomCompileArgs {
            circom_file: String::new(),
            output: String::new(),
            link_directory: String::new(),
            curve_type: String::new(),
        }
    }
}

impl Default for StarkProveArgs {
    fn default() -> (args: Self)
        ensures
            args@ == blank_stark_args(),
    {
        StarkProveArgs {
            commit_file: String::new(),
            const_file: String::new(),
            curve_type: String::new(),
            exec_file: String::new(),
            pil_file: String::new(),
            piljson: String::new(),
            r1cs_file: String::new(),
            wasm_file: String::new(),
            zkin: String::new(),
        }
    }
}

impl Clone for CircomCompileArgs {
    fn clone(&self) -> (res: Self)
        ensures
            res == *self,
    {
        CircomCompileArgs {
            circom_file: self.circom_file.clone(),
            output: self.output.clone(),
            link_directory: self.link_directory.clone(),
            curve_type: self.curve_type.clone(),
        }
    }
}

impl Clone for StarkProveArgs {
    fn clone(&self) -> (res: Self)
        ensures
            res == *self,
    {
        StarkProveArgs {
            commit_file: self.commit_file.clone(),
            const_file: self.const_file.clone(),
            curve_type: self.curve_type.clone(),
            exec_file: self.exec_file.clone(),
            pil_file: self.pil_file.clone(),
            piljson: self.piljson.clone(),
            r1cs_file: self.r1cs_file.clone(),
            wasm_file: self.wasm_file.clone(),
            zkin: self.zkin.clone(),
        }
    }
}

/// Builds `{basedir}/{task_path}/{stem}{ext}`.
pub fn task_file_path(basedir: &str, task_path: &str, stem: &str, ext: &str) -> (s: String)
    ensures
        s@ == task_file(basedir@, task_path@, stem@, ext@),
{
    join(join(basedir, task_path).as_str(), stem).concat(ext)
}

/// Builds `{basedir}/{task_path}/{stem}_js/{stem}.wasm`.
pub fn wasm_file_path(basedir: &str, task_path: &str, stem: &str) -> (s: String)
    ensures
        s@ == wasm_file(basedir@, task_path@, stem@),
{
    join(join(basedir, task_path).as_str(), stem).concat("_js/").concat(stem).concat(".wasm")
}

/// Builds `{task_name}_chunk_{chunk_id}`.
pub fn chunk_file_name(task_name: &str, chunk_id: &str) -> (s: String)
    ensures
        s@ == chunk_name(task_name@, chunk_id@),
{
    String::from_str(task_name).concat("_chunk_").concat(chunk_id)
}

impl CircomCompileArgs {
    pub fn new(basedir: &str, task_path: &str, task_name: &str, curve: &str) -> (args: Self)
        ensures
            args@ == circom_args(basedir@, task_path@, task_name@, curve@),
    {
        CircomCompileArgs {
            circom_file: task_file_path(basedir, task_path, task_name, ".circom"),
            output: join(basedir, task_path),
            link_directory: join(basedir, "circuits"),
            curve_type: String::from_str(curve),
        }
    }

    pub fn new_batch(
        evm_output: &str,
        basedir: &str,
        task_path: &str,
        task_name: &str,
        chunk_id: &str,
        curve: &str,
    ) -> (args: Self)
        ensures
            args@ == batch_circom_args(
                evm_output@,
                basedir@,
                task_path@,
                task_name@,
                chunk_id@,
                curve@,
            ),
    {
        let name = chunk_file_name(task_name, chunk_id);
        CircomCompileArgs {
            circom_file: join(evm_output, name.as_str()).concat(".circom"),
            output: join(basedir, task_path),
            link_directory: join(basedir, "circuits"),
            curve_type: String::from_str(curve),
        }
    }
}

impl StarkProveArgs {
    pub fn new(basedir: &str, task_path: &str, task_name: &str, curve: &str) -> (args: Self)
        ensures
            args@ == stark_args(basedir@, task_path@, task_name@, curve@),
    {
        StarkProveArgs {
            commit_file: task_file_path(basedir, task_path, task_name, ".cm"),
            const_file: task_file_path(basedir, task_path, task_name, ".const"),
            curve_type: String::from_str(curve),
            exec_file: task_file_path(basedir, task_path, task_name, ".exec"),
            pil_file: task_file_path(basedir, task_path, task_name, ".pil"),
            piljson: task_file_path(basedir, task_path, task_name, ".pil.json"),
            r1cs_file: task_file_path(basedir, task_path, task_name, ".r1cs"),
            wasm_file: wasm_file_path(basedir, task_path, task_name),
            zkin: task_file_path(basedir, task_path, task_name, ".zkin"),
        }
    }
}

} // verus!
