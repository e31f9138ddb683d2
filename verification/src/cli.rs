//! The command-line interface of the node: its identity, how a chain
//! specification is chosen, and what each subcommand does.

use vstd::prelude::*;

use crate::benchmarking::{RemarkBuilder, TransferKeepAliveBuilder};
use crate::chain_spec::{
    ChainType,
    development_config, is_development_spec, is_local_devnet_spec, local_devnet_config,
    missing_wasm_message, ChainSpecConfig, DevKeys,
};
use crate::keys::{keyring_account_id, keyring_public, DevKeyring};
use crate::runtime_config::{EXISTENTIAL_DEPOSIT, MILLISECS_PER_BLOCK};

verus! {

/// The benchmarking subcommands.
#[derive(Clone, Copy, Debug, PartialEq, Eq, Structural)]
pub enum BenchmarkCmd {
    Pallet,
    Storage,
    Overhead,
    Block,
    Machine,
    Extrinsic,
}

/// The subcommands of the node.
#[derive(Clone, Copy, Debug, PartialEq, Eq, Structural)]
pub enum Subcommand {
    Key,
    BuildSpec,
    CheckBlock,
    ExportBlocks,
    ExportState,
    ImportBlocks,
    PurgeChain,
    Revert,
    Benchmark(BenchmarkCmd),
    TryRuntime,
    ChainInfo,
}

/// The parsed command line: a subcommand, or none to run the node.
#[derive(Clone, Copy, Debug)]
pub struct Cli {
    pub subcommand: Option<Subcommand>,
}

/// The optional features the node was built with.
#[derive(Clone, Copy, Debug)]
pub struct BuildFeatures {
    pub runtime_benchmarks: bool,
    pub try_runtime: bool,
}

/// Where a chain specification comes from.
#[derive(Clone, Copy, Debug, PartialEq, Eq, Structural)]
pub enum SpecSource {
    Development,
    LocalDevnet,
    JsonFile,
}

/// A chain specification chosen by its identifier.
pub enum LoadedSpec<'a> {
    /// One of the built-in specifications.
    BuiltIn(ChainSpecConfig<'a>),
    /// A specification to read from the JSON file at this path.
    JsonFile(String),
}

/// What the node does for a command line.
pub enum CommandAction {
    RunNode,
    Key,
    BuildSpec,
    CheckBlock,
    ExportBlocks,
    ExportState,
    ImportBlocks,
    PurgeChain,
    Revert,
    BenchmarkPallet,
    BenchmarkStorage,
    BenchmarkBlock,
    /// Measure the overhead with remark extrinsics.
    BenchmarkOverhead { remark: RemarkBuilder },
    /// Benchmark remark and transfer extrinsics.
    BenchmarkExtrinsic { remark: RemarkBuilder, transfer: TransferKeepAliveBuilder },
    BenchmarkMachine,
    /// Run try-runtime with timestamps of the given slot duration in milliseconds.
    TryRuntime { slot_duration_ms: u64 },
    ChainInfo,
}

/// The source of the chain specification with identifier `id`.
pub open spec fn spec_source_of(id: Seq<char>) -> SpecSource {
    if id == "dev"@ {
        SpecSource::Development
    } else if id == ""@ || id == "local"@ {
        SpecSource::LocalDevnet
    } else {
        SpecSource::JsonFile
    }
}

fn str_eq(a: &str, b: &str) -> (r: bool)
    ensures
        r == (a@ == b@),
{
    let a = a.to_owned();
    let b = b.to_owned();
    a == b
}

/// Only the exact identifier `dev` names the development chain, only the empty
/// identifier and the exact identifier `local` name the local network, and every
/// other identifier (one that merely begins with `dev`, say) is a JSON file path.
pub proof fn lemma_spec_source_exact(id: Seq<char>)
    ensures
        spec_source_of(id) == SpecSource::Development <==> id == seq!['d', 'e', 'v'],
        spec_source_of(id) == SpecSource::LocalDevnet <==> (id.len() == 0 || id == seq![
            'l',
            'o',
            'c',
            'a',
            'l',
        ]),
        spec_source_of(id) == SpecSource::JsonFile <==> (id != seq!['d', 'e', 'v'] && id.len()
            != 0 && id != seq!['l', 'o', 'c', 'a', 'l']),
{
    reveal_strlit("dev");
    reveal_strlit("local");
    reveal_strlit("");
    assert("dev"@ =~= seq!['d', 'e', 'v']);
    assert("local"@ =~= seq!['l', 'o', 'c', 'a', 'l']);
    assert(""@ =~= Seq::<char>::empty());
    assert(id.len() == 0 ==> id =~= Seq::<char>::empty());
}

/// Which chain specification an identifier names: `dev` the development chain,
/// the empty identifier and `local` the local network, anything else a JSON file.
pub fn spec_source(id: &str) -> (s: SpecSource)
    ensures
        s == spec_source_of(id@),
        s == SpecSource::Development <==> id@ == seq!['d', 'e', 'v'],
        s == SpecSource::LocalDevnet <==> (id@.len() == 0 || id@ == seq!['l', 'o', 'c', 'a', 'l']),
        s == SpecSource::JsonFile <==> (id@ != seq!['d', 'e', 'v'] && id@.len() != 0 && id@
            != seq!['l', 'o', 'c', 'a', 'l']),
{
    proof {
        lemma_spec_source_exact(id@);
    }
    if str_eq(id, "dev") {
        SpecSource::Development
    } else if str_eq(id, "") || str_eq(id, "local") {
        SpecSource::LocalDevnet
    } else {
        SpecSource::JsonFile
    }
}

/// Message of a refused pallet benchmark.
pub open spec fn pallet_benchmark_disabled() -> Seq<char> {
    "Runtime benchmarking wasn't enabled when building the node. You can enable it with `--features runtime-benchmarks`."@
}

/// Message of a refused storage benchmark.
pub open spec fn storage_benchmark_disabled() -> Seq<char> {
    "Storage benchmarking can be enabled with `--features runtime-benchmarks`."@
}

/// Message of a refused try-runtime command.
pub open spec fn try_runtime_disabled() -> Seq<char> {
    "TryRuntime wasn't enabled when building the node. You can enable it with `--features try-runtime`."@
}

/// `a` is the action of subcommand `sub` (no subcommand: run the node) when it
/// is carried out.
pub open spec fn is_action_of(sub: Option<Subcommand>, a: CommandAction) -> bool {
    match sub {
        None => a is RunNode,
        Some(Subcommand::Key) => a is Key,
        Some(Subcommand::BuildSpec) => a is BuildSpec,
        Some(Subcommand::CheckBlock) => a is CheckBlock,
        Some(Subcommand::ExportBlocks) => a is ExportBlocks,
        Some(Subcommand::ExportState) => a is ExportState,
        Some(Subcommand::ImportBlocks) => a is ImportBlocks,
        Some(Subcommand::PurgeChain) => a is PurgeChain,
        Some(Subcommand::Revert) => a is Revert,
        Some(Subcommand::ChainInfo) => a is ChainInfo,
        Some(Subcommand::TryRuntime) => a matches CommandAction::TryRuntime { slot_duration_ms }
            && slot_duration_ms == MILLISECS_PER_BLOCK,
        Some(Subcommand::Benchmark(b)) => match b {
            BenchmarkCmd::Pallet => a is BenchmarkPallet,
            BenchmarkCmd::Storage => a is BenchmarkStorage,
            BenchmarkCmd::Block => a is BenchmarkBlock,
            BenchmarkCmd::Machine => a is BenchmarkMachine,
            BenchmarkCmd::Overhead => a is BenchmarkOverhead,
            BenchmarkCmd::Extrinsic => a matches CommandAction::BenchmarkExtrinsic {
                transfer,
                ..
            } && transfer.dest.bytes@ == keyring_public(DevKeyring::Alice) && transfer.value
                == EXISTENTIAL_DEPOSIT,
        },
    }
}

impl Cli {
    /// Name of the implementation.
    pub fn impl_name() -> (s: String)
        ensures
            s@ == "Logos dev-node"@,
    {
        String::from_str("Logos dev-node")
    }

    /// Where users find support or report issues.
    pub fn support_url() -> (s: String)
        ensures
            s@ == "https://github.com/logoslabstech/logos-dev-environment/issues/new"@,
    {
        String::from_str("https://github.com/logoslabstech/logos-dev-environment/issues/new")
    }

    /// First year of the copyright notice.
    pub fn copyright_start_year() -> (y: i32)
        ensures
            y == 2024,
    {
        2024
    }

    /// The chain specification with identifier `id`: a built-in one (which needs
    /// the runtime code) or the path of a JSON file.
    pub fn load_spec<'a>(&self, id: &str, wasm_binary: Option<&'a [u8]>, keys: &DevKeys) -> (r:
        Result<LoadedSpec<'a>, String>)
        ensures
            match spec_source_of(id@) {
                SpecSource::Development => match r {
                    Ok(LoadedSpec::BuiltIn(c)) => wasm_binary is Some && is_development_spec(
                        c,
                        wasm_binary->Some_0,
                    ),
                    Ok(LoadedSpec::JsonFile(_)) => false,
                    Err(e) => wasm_binary is None && e@ == missing_wasm_message(),
                },
                SpecSource::LocalDevnet => match r {
                    Ok(LoadedSpec::BuiltIn(c)) => wasm_binary is Some && is_local_devnet_spec(
                        c,
                        wasm_binary->Some_0,
                    ),
                    Ok(LoadedSpec::JsonFile(_)) => false,
                    Err(e) => wasm_binary is None && e@ == missing_wasm_message(),
                },
                SpecSource::JsonFile => r matches Ok(LoadedSpec::JsonFile(path)) && path@ == id@,
            },
            (r matches Ok(LoadedSpec::JsonFile(path)) && path@ == id@) <==> (id@ != seq![
                'd',
                'e',
                'v',
            ] && id@.len() != 0 && id@ != seq!['l', 'o', 'c', 'a', 'l']),
            id@ == seq!['d', 'e', 'v'] ==> (r matches Ok(LoadedSpec::BuiltIn(c))
                ==> c.chain_type == ChainType::Development),
            (id@.len() == 0 || id@ == seq!['l', 'o', 'c', 'a', 'l']) ==> (r matches Ok(
                LoadedSpec::BuiltIn(c),
            ) ==> c.chain_type == ChainType::Local),
    {
        proof {
            lemma_spec_source_exact(id@);
        }
        match spec_source(id) {
            SpecSource::Development => match development_config(wasm_binary, keys) {
                Ok(c) => Ok(LoadedSpec::BuiltIn(c)),
                Err(e) => Err(e),
            },
            SpecSource::LocalDevnet => match local_devnet_config(wasm_binary, keys) {
                Ok(c) => Ok(LoadedSpec::BuiltIn(c)),
                Err(e) => Err(e),
            },
            SpecSource::JsonFile => Ok(LoadedSpec::JsonFile(id.to_owned())),
        }
    }

    /// What the node does for this command line, or the message of a refusal
    /// where the command needs a feature the node was built without.
    pub fn command_action(&self, features: BuildFeatures) -> (r: Result<CommandAction, String>)
        ensures
            match r {
                Ok(a) => is_action_of(self.subcommand, a),
                Err(e) => match self.subcommand {
                    Some(Subcommand::Benchmark(BenchmarkCmd::Pallet)) => !features.runtime_benchmarks
                        && e@ == pallet_benchmark_disabled(),
                    Some(Subcommand::Benchmark(BenchmarkCmd::Storage)) => !features.runtime_benchmarks
                        && e@ == storage_benchmark_disabled(),
                    Some(Subcommand::TryRuntime) => !features.try_runtime && e@
                        == try_runtime_disabled(),
                    _ => false,
                },
            },
            r is Err <==> (match self.subcommand {
                Some(Subcommand::Benchmark(BenchmarkCmd::Pallet)) => !features.runtime_benchmarks,
                Some(Subcommand::Benchmark(BenchmarkCmd::Storage)) => !features.runtime_benchmarks,
                Some(Subcommand::TryRuntime) => !features.try_runtime,
                _ => false,
            }),
    {
        match self.subcommand {
            None => Ok(CommandAction::RunNode),
            Some(Subcommand::Key) => Ok(CommandAction::Key),
            Some(Subcommand::BuildSpec) => Ok(CommandAction::BuildSpec),
            Some(Subcommand::CheckBlock) => Ok(CommandAction::CheckBlock),
            Some(Subcommand::ExportBlocks) => Ok(CommandAction::ExportBlocks),
            Some(Subcommand::ExportState) => Ok(CommandAction::ExportState),
            Some(Subcommand::ImportBlocks) => Ok(CommandAction::ImportBlocks),
            Some(Subcommand::PurgeChain) => Ok(CommandAction::PurgeChain),
            Some(Subcommand::Revert) => Ok(CommandAction::Revert),
            Some(Subcommand::ChainInfo) => Ok(CommandAction::ChainInfo),
            Some(Subcommand::TryRuntime) => {
                if features.try_runtime {
                    Ok(CommandAction::TryRuntime { slot_duration_ms: MILLISECS_PER_BLOCK })
                } else {
                    Err(
                        String::from_str(
                            "TryRuntime wasn't enabled when building the node. You can enable it with `--features try-runtime`.",
                        ),
                    )
                }
            },
            Some(Subcommand::Benchmark(b)) => match b {
                BenchmarkCmd::Pallet => {
                    if features.runtime_benchmarks {
                        Ok(CommandAction::BenchmarkPallet)
                    } else {
                        Err(
                            String::from_str(
                                "Runtime benchmarking wasn't enabled when building the node. You can enable it with `--features runtime-benchmarks`.",
                            ),
                        )
                    }
                },
                BenchmarkCmd::Storage => {
                    if features.runtime_benchmarks {
                        Ok(CommandAction::BenchmarkStorage)
                    } else {
                        Err(
                            String::from_str(
                                "Storage benchmarking can be enabled with `--features runtime-benchmarks`.",
                            ),
                        )
                    }
                },
                BenchmarkCmd::Block => Ok(CommandAction::BenchmarkBlock),
                BenchmarkCmd::Machine => Ok(CommandAction::BenchmarkMachine),
                BenchmarkCmd::Overhead => Ok(
                    CommandAction::BenchmarkOverhead { remark: RemarkBuilder::new() },
                ),
                BenchmarkCmd::Extrinsic => {
                    let alice = keyring_account_id(DevKeyring::Alice);
                    Ok(
                        CommandAction::BenchmarkExtrinsic {
                            remark: RemarkBuilder::new(),
                            transfer: TransferKeepAliveBuilder::new(alice, EXISTENTIAL_DEPOSIT),
                        },
                    )
                },
            },
        }
    }
}

} // verus!
