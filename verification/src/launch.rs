//! The commands that start the llama.cpp servers.
use crate::endpoints::{set_or, value_or};
use crate::text::{after_last_colon, lemma_port_after_base, port_of, same_text};
use vstd::prelude::*;

verus! {

/// The environment variable for the number of layers whose experts stay on the CPU.
pub const N_MOE_VARIABLE: &'static str = "LLM_SERVER_N_MOE";

/// The environment variable for the size of the context.
pub const CTX_SIZE_VARIABLE: &'static str = "LLM_SERVER_CTX_SIZE";

/// The environment variable for the number of parallel slots.
pub const PARALLEL_VARIABLE: &'static str = "LLM_SERVER_PARALLEL";

/// The environment variable for whether batching is continuous.
pub const CONT_BATCHING_VARIABLE: &'static str = "LLM_SERVER_CONT_BATCHING";

/// The environment variable for whether the model is kept in memory.
pub const MLOCK_VARIABLE: &'static str = "LLM_SERVER_MLOCK";

/// The environment variable for whether the model is read instead of mapped.
pub const NO_MMAP_VARIABLE: &'static str = "LLM_SERVER_NO_MMAP";

/// The environment variable for the number of layers on the GPU.
pub const GPU_LAYERS_VARIABLE: &'static str = "LLM_SERVER_GPU_LAYERS";

/// The values of the variables that tune the chat server, where they are set.
pub struct LlmServerVariables {
    pub n_moe: Option<String>,
    pub ctx_size: Option<String>,
    pub parallel: Option<String>,
    pub cont_batching: Option<String>,
    pub mlock: Option<String>,
    pub no_mmap: Option<String>,
    pub gpu_layers: Option<String>,
}

/// How the chat server is tuned.
pub struct LlmServerOptions {
    pub n_moe: String,
    pub ctx_size: String,
    pub parallel: String,
    pub cont_batching: String,
    pub mlock: String,
    pub no_mmap: String,
    pub gpu_layers: String,
}

/// The tuning of the chat server: what is set, and the defaults of the rest.
pub fn llm_server_options(variables: LlmServerVariables) -> (r: LlmServerOptions)
    ensures
        r.n_moe@ == set_or(variables.n_moe, "4"@),
        r.ctx_size@ == set_or(variables.ctx_size, "4096"@),
        r.parallel@ == set_or(variables.parallel, "1"@),
        r.cont_batching@ == set_or(variables.cont_batching, "true"@),
        r.mlock@ == set_or(variables.mlock, "true"@),
        r.no_mmap@ == set_or(variables.no_mmap, "true"@),
        r.gpu_layers@ == set_or(variables.gpu_layers, "20"@),
{
    LlmServerOptions {
        n_moe: value_or(variables.n_moe, "4"),
        ctx_size: value_or(variables.ctx_size, "4096"),
        parallel: value_or(variables.parallel, "1"),
        cont_batching: value_or(variables.cont_batching, "true"),
        mlock: value_or(variables.mlock, "true"),
        no_mmap: value_or(variables.no_mmap, "true"),
        gpu_layers: value_or(variables.gpu_layers, "20"),
    }
}

/// A text where a condition holds, and nothing otherwise.
pub open spec fn text_if(condition: bool, text: Seq<char>) -> Seq<char> {
    if condition {
        text
    } else {
        Seq::empty()
    }
}

/// The arguments that every chat server gets.
pub open spec fn base_args_model(
    model_path: Seq<char>,
    port: Seq<char>,
    options: LlmServerOptions,
) -> Seq<char> {
    "-m "@ + model_path + " --host 0.0.0.0 --port "@ + port
        + " --top_p 0.95 --temp 0.6 --ctx-size "@ + options.ctx_size@
        + " --repeat-penalty 1.2 -ngl "@ + options.gpu_layers@
}

/// The arguments of the chat server: experts on the CPU unless their number is
/// `0`, parallel slots unless their number is `1`, and the switches that are
/// `true`.
pub open spec fn llm_args_model(
    model_path: Seq<char>,
    port: Seq<char>,
    options: LlmServerOptions,
) -> Seq<char> {
    base_args_model(model_path, port, options) + text_if(
        options.n_moe@ != "0"@,
        " --n-cpu-moe "@ + options.n_moe@,
    ) + text_if(options.parallel@ != "1"@, " --parallel "@ + options.parallel@) + text_if(
        options.cont_batching@ == "true"@,
        " --cont-batching"@,
    ) + text_if(options.mlock@ == "true"@, " --mlock"@) + text_if(
        options.no_mmap@ == "true"@,
        " --no-mmap"@,
    )
}

/// Appends a text where a condition holds.
fn append_if(args: &mut String, condition: bool, text: &str)
    ensures
        final(args)@ == old(args)@ + text_if(condition, text@),
{
    if condition {
        args.append(text);
    } else {
        proof {
            assert(old(args)@ + Seq::<char>::empty() =~= old(args)@);
        }
    }
}

/// The arguments of the chat server.
pub fn llm_server_args(model_path: &str, port: &str, options: &LlmServerOptions) -> (r: String)
    ensures
        r@ == llm_args_model(model_path@, port@, *options),
{
    let mut args: String = "-m ".to_string();
    args.append(model_path);
    args.append(" --host 0.0.0.0 --port ");
    args.append(port);
    args.append(" --top_p 0.95 --temp 0.6 --ctx-size ");
    args.append(options.ctx_size.as_str());
    args.append(" --repeat-penalty 1.2 -ngl ");
    args.append(options.gpu_layers.as_str());
    let n_moe: String = " --n-cpu-moe ".to_string().concat(options.n_moe.as_str());
    append_if(&mut args, !same_text(options.n_moe.as_str(), "0"), n_moe.as_str());
    let parallel: String = " --parallel ".to_string().concat(options.parallel.as_str());
    append_if(&mut args, !same_text(options.parallel.as_str(), "1"), parallel.as_str());
    append_if(&mut args, same_text(options.cont_batching.as_str(), "true"), " --cont-batching");
    append_if(&mut args, same_text(options.mlock.as_str(), "true"), " --mlock");
    append_if(&mut args, same_text(options.no_mmap.as_str(), "true"), " --no-mmap");
    args
}

/// The arguments of the embedding server.
pub open spec fn embedding_args_model(model_path: Seq<char>, port: Seq<char>) -> Seq<char> {
    "-m "@ + model_path + " --host 0.0.0.0 --port "@ + port + " --embedding --n-gpu-layers 99"@
}

/// The arguments of the embedding server.
pub fn embedding_server_args(model_path: &str, port: &str) -> (r: String)
    ensures
        r@ == embedding_args_model(model_path@, port@),
        r@ == "-m "@ + model_path@ + " --host 0.0.0.0 --port "@ + port@
            + " --embedding --n-gpu-layers 99"@,
{
    let mut args: String = "-m ".to_string();
    args.append(model_path);
    args.append(" --host 0.0.0.0 --port ");
    args.append(port);
    args.append(" --embedding --n-gpu-layers 99");
    args
}

/// The script that runs the llama.cpp server in its directory: in the
/// background where the shell is a POSIX one.
pub open spec fn script_model(directory: Seq<char>, args: Seq<char>, windows: bool) -> Seq<char> {
    if windows {
        "cd "@ + directory + " && .\\llama-server.exe "@ + args
    } else {
        "cd "@ + directory + " && ./llama-server "@ + args + " &"@
    }
}

/// The script that runs the llama.cpp server in its directory.
pub fn server_script(directory: &str, args: &str, windows: bool) -> (r: String)
    ensures
        r@ == script_model(directory@, args@, windows),
        windows ==> r@ == "cd "@ + directory@ + " && .\\llama-server.exe "@ + args@,
        !windows ==> r@ == "cd "@ + directory@ + " && ./llama-server "@ + args@ + " &"@,
{
    let mut script: String = "cd ".to_string();
    script.append(directory);
    if windows {
        script.append(" && .\\llama-server.exe ");
        script.append(args);
    } else {
        script.append(" && ./llama-server ");
        script.append(args);
        script.append(" &");
    }
    script
}

/// A script for a shell: the shell, the flag that precedes a script, the script.
pub struct ShellCommand {
    pub program: String,
    pub flag: String,
    pub script: String,
}

/// The shell of a platform.
pub open spec fn shell_model(windows: bool) -> Seq<char> {
    if windows {
        "cmd"@
    } else {
        "sh"@
    }
}

/// A command for the shell of a platform, with the flag that a POSIX shell takes
/// or else the one given for Windows.
fn shell_command(script: String, windows_flag: &str, windows: bool) -> (r: ShellCommand)
    ensures
        r.program@ == shell_model(windows),
        r.program@ == (if windows {
            "cmd"@
        } else {
            "sh"@
        }),
        r.flag@ == (if windows {
            windows_flag@
        } else {
            "-c"@
        }),
        r.script == script,
{
    if windows {
        ShellCommand { program: "cmd".to_string(), flag: windows_flag.to_string(), script }
    } else {
        ShellCommand { program: "sh".to_string(), flag: "-c".to_string(), script }
    }
}

/// The command that starts the chat server at an address.
pub fn start_llm_server(
    llama_cpp_path: &str,
    model_path: &str,
    url: &str,
    options: &LlmServerOptions,
    windows: bool,
) -> (r: ShellCommand)
    ensures
        r.program@ == shell_model(windows),
        r.program@ == (if windows {
            "cmd"@
        } else {
            "sh"@
        }),
        r.flag@ == (if windows {
            "/C"@
        } else {
            "-c"@
        }),
        r.script@ == script_model(
            llama_cpp_path@,
            llm_args_model(model_path@, after_last_colon(url@), *options),
            windows,
        ),
{
    let port: String = port_of(url);
    let args: String = llm_server_args(model_path, port.as_str(), options);
    shell_command(server_script(llama_cpp_path, args.as_str(), windows), "/C", windows)
}

/// The command that starts the embedding server at an address.
pub fn start_embedding_server(
    llama_cpp_path: &str,
    model_path: &str,
    url: &str,
    windows: bool,
) -> (r: ShellCommand)
    ensures
        r.program@ == shell_model(windows),
        r.program@ == (if windows {
            "cmd"@
        } else {
            "sh"@
        }),
        r.flag@ == (if windows {
            "/c"@
        } else {
            "-c"@
        }),
        r.script@ == script_model(
            llama_cpp_path@,
            embedding_args_model(model_path@, after_last_colon(url@)),
            windows,
        ),
{
    let port: String = port_of(url);
    let args: String = embedding_server_args(model_path, port.as_str());
    shell_command(server_script(llama_cpp_path, args.as_str(), windows), "/c", windows)
}

/// The environment variables that the chat server's threads are tuned with,
/// each with its value.
pub fn thread_variables() -> (r: Vec<(String, String)>)
    ensures
        r@.len() == 3,
        r@[0].0@ == "OMP_NUM_THREADS"@ && r@[0].1@ == "20"@,
        r@[1].0@ == "OMP_PLACES"@ && r@[1].1@ == "cores"@,
        r@[2].0@ == "OMP_PROC_BIND"@ && r@[2].1@ == "close"@,
{
    vec![
        ("OMP_NUM_THREADS".to_string(), "20".to_string()),
        ("OMP_PLACES".to_string(), "cores".to_string()),
        ("OMP_PROC_BIND".to_string(), "close".to_string()),
    ]
}

/// The arguments of the chat server, for each combination of the switches. Each
/// switch is there if its own variable is `true`. Before them stand the number of
/// layers whose experts stay on the CPU, unless it is `0`, and the number of slots,
/// unless it is `1`.
pub proof fn lemma_llm_args(model_path: Seq<char>, port: Seq<char>, options: LlmServerOptions)
    ensures
        ({
            let args = llm_args_model(model_path, port, options);
            let cont_batching = options.cont_batching@ == "true"@;
            let mlock = options.mlock@ == "true"@;
            let no_mmap = options.no_mmap@ == "true"@;
            let base = "-m "@ + model_path + " --host 0.0.0.0 --port "@ + port
                + " --top_p 0.95 --temp 0.6 --ctx-size "@ + options.ctx_size@
                + " --repeat-penalty 1.2 -ngl "@ + options.gpu_layers@;
            let front = if options.n_moe@ != "0"@ && options.parallel@ != "1"@ {
                base + " --n-cpu-moe "@ + options.n_moe@ + " --parallel "@ + options.parallel@
            } else if options.n_moe@ != "0"@ {
                base + " --n-cpu-moe "@ + options.n_moe@
            } else if options.parallel@ != "1"@ {
                base + " --parallel "@ + options.parallel@
            } else {
                base
            };
            &&& cont_batching && mlock && no_mmap ==> args == front
                + " --cont-batching --mlock --no-mmap"@
            &&& cont_batching && mlock && !no_mmap ==> args == front + " --cont-batching --mlock"@
            &&& cont_batching && !mlock && no_mmap ==> args == front + " --cont-batching --no-mmap"@
            &&& cont_batching && !mlock && !no_mmap ==> args == front + " --cont-batching"@
            &&& !cont_batching && mlock && no_mmap ==> args == front + " --mlock --no-mmap"@
            &&& !cont_batching && mlock && !no_mmap ==> args == front + " --mlock"@
            &&& !cont_batching && !mlock && no_mmap ==> args == front + " --no-mmap"@
            &&& !cont_batching && !mlock && !no_mmap ==> args == front + ""@
        }),
{
    let base = base_args_model(model_path, port, options);
    let front = base + text_if(options.n_moe@ != "0"@, " --n-cpu-moe "@ + options.n_moe@) + text_if(
        options.parallel@ != "1"@,
        " --parallel "@ + options.parallel@,
    );
    assert(front =~= if options.n_moe@ != "0"@ && options.parallel@ != "1"@ {
        base + " --n-cpu-moe "@ + options.n_moe@ + " --parallel "@ + options.parallel@
    } else if options.n_moe@ != "0"@ {
        base + " --n-cpu-moe "@ + options.n_moe@
    } else if options.parallel@ != "1"@ {
        base + " --parallel "@ + options.parallel@
    } else {
        base
    });
    let switches = text_if(options.cont_batching@ == "true"@, " --cont-batching"@) + text_if(
        options.mlock@ == "true"@,
        " --mlock"@,
    ) + text_if(options.no_mmap@ == "true"@, " --no-mmap"@);
    assert(llm_args_model(model_path, port, options) =~= front + switches);
    lemma_switches(
        options.cont_batching@ == "true"@,
        options.mlock@ == "true"@,
        options.no_mmap@ == "true"@,
    );
}

proof fn lemma_switches(cont_batching: bool, mlock: bool, no_mmap: bool)
    ensures
        ({
            let switches = text_if(cont_batching, " --cont-batching"@) + text_if(mlock, " --mlock"@)
                + text_if(no_mmap, " --no-mmap"@);
            &&& cont_batching && mlock && no_mmap ==> switches
                == " --cont-batching --mlock --no-mmap"@
            &&& cont_batching && mlock && !no_mmap ==> switches == " --cont-batching --mlock"@
            &&& cont_batching && !mlock && no_mmap ==> switches == " --cont-batching --no-mmap"@
            &&& cont_batching && !mlock && !no_mmap ==> switches == " --cont-batching"@
            &&& !cont_batching && mlock && no_mmap ==> switches == " --mlock --no-mmap"@
            &&& !cont_batching && mlock && !no_mmap ==> switches == " --mlock"@
            &&& !cont_batching && !mlock && no_mmap ==> switches == " --no-mmap"@
            &&& !cont_batching && !mlock && !no_mmap ==> switches == ""@
        }),
{
    reveal_strlit(" --cont-batching --mlock --no-mmap");
    reveal_strlit(" --cont-batching --mlock");
    reveal_strlit(" --cont-batching --no-mmap");
    reveal_strlit(" --cont-batching");
    reveal_strlit(" --mlock --no-mmap");
    reveal_strlit(" --mlock");
    reveal_strlit(" --no-mmap");
    reveal_strlit("");
    let switches = text_if(cont_batching, " --cont-batching"@) + text_if(mlock, " --mlock"@)
        + text_if(no_mmap, " --no-mmap"@);
    if cont_batching && mlock && no_mmap {
        assert(switches =~= " --cont-batching --mlock --no-mmap"@);
    } else if cont_batching && mlock {
        assert(switches =~= " --cont-batching --mlock"@);
    } else if cont_batching && no_mmap {
        assert(switches =~= " --cont-batching --no-mmap"@);
    } else if cont_batching {
        assert(switches =~= " --cont-batching"@);
    } else if mlock && no_mmap {
        assert(switches =~= " --mlock --no-mmap"@);
    } else if mlock {
        assert(switches =~= " --mlock"@);
    } else if no_mmap {
        assert(switches =~= " --no-mmap"@);
    } else {
        assert(switches =~= ""@);
    }
}

/// Two tunings that are the same but for the three switches.
pub open spec fn same_but_switches(a: LlmServerOptions, b: LlmServerOptions) -> bool {
    &&& a.n_moe@ == b.n_moe@
    &&& a.ctx_size@ == b.ctx_size@
    &&& a.parallel@ == b.parallel@
    &&& a.gpu_layers@ == b.gpu_layers@
}

/// Continuous batching follows its own variable: two tunings that differ only in
/// whether that is `true` have arguments that differ by ` --cont-batching` and nothing
/// else.
pub proof fn lemma_cont_batching_switch(
    model_path: Seq<char>,
    port: Seq<char>,
    on: LlmServerOptions,
    off: LlmServerOptions,
)
    requires
        same_but_switches(on, off),
        on.mlock@ == off.mlock@,
        on.no_mmap@ == off.no_mmap@,
        on.cont_batching@ == "true"@,
        off.cont_batching@ != "true"@,
    ensures
        exists|before: Seq<char>, behind: Seq<char>| #[trigger]
            (before + behind) == llm_args_model(model_path, port, off) && llm_args_model(
                model_path,
                port,
                on,
            ) == before + " --cont-batching"@ + behind,
{
    let before = base_args_model(model_path, port, on) + text_if(
        on.n_moe@ != "0"@,
        " --n-cpu-moe "@ + on.n_moe@,
    ) + text_if(on.parallel@ != "1"@, " --parallel "@ + on.parallel@);
    let behind = text_if(on.mlock@ == "true"@, " --mlock"@) + text_if(
        on.no_mmap@ == "true"@,
        " --no-mmap"@,
    );
    assert(before + behind =~= llm_args_model(model_path, port, off));
    assert(llm_args_model(model_path, port, on) =~= before + " --cont-batching"@ + behind);
}

/// Memory locking follows its own variable: two tunings that differ only in whether
/// that is `true` have arguments that differ by ` --mlock` and nothing else.
pub proof fn lemma_mlock_switch(
    model_path: Seq<char>,
    port: Seq<char>,
    on: LlmServerOptions,
    off: LlmServerOptions,
)
    requires
        same_but_switches(on, off),
        on.cont_batching@ == off.cont_batching@,
        on.no_mmap@ == off.no_mmap@,
        on.mlock@ == "true"@,
        off.mlock@ != "true"@,
    ensures
        exists|before: Seq<char>, behind: Seq<char>| #[trigger]
            (before + behind) == llm_args_model(model_path, port, off) && llm_args_model(
                model_path,
                port,
                on,
            ) == before + " --mlock"@ + behind,
{
    let before = base_args_model(model_path, port, on) + text_if(
        on.n_moe@ != "0"@,
        " --n-cpu-moe "@ + on.n_moe@,
    ) + text_if(on.parallel@ != "1"@, " --parallel "@ + on.parallel@) + text_if(
        on.cont_batching@ == "true"@,
        " --cont-batching"@,
    );
    let behind = text_if(on.no_mmap@ == "true"@, " --no-mmap"@);
    assert(before + behind =~= llm_args_model(model_path, port, off));
    assert(llm_args_model(model_path, port, on) =~= before + " --mlock"@ + behind);
}

/// Reading the model instead of mapping it follows its own variable: two tunings that
/// differ only in whether that is `true` have arguments that differ by ` --no-mmap` at
/// the end and nothing else.
pub proof fn lemma_no_mmap_switch(
    model_path: Seq<char>,
    port: Seq<char>,
    on: LlmServerOptions,
    off: LlmServerOptions,
)
    requires
        same_but_switches(on, off),
        on.cont_batching@ == off.cont_batching@,
        on.mlock@ == off.mlock@,
        on.no_mmap@ == "true"@,
        off.no_mmap@ != "true"@,
    ensures
        llm_args_model(model_path, port, on) == llm_args_model(model_path, port, off)
            + " --no-mmap"@,
{
    assert(llm_args_model(model_path, port, on) =~= llm_args_model(model_path, port, off)
        + " --no-mmap"@);
}

/// The server runs in its directory, by the name that it has on the platform, and in
/// the background where the shell is a POSIX one.
pub proof fn lemma_script(directory: Seq<char>, args: Seq<char>)
    ensures
        script_model(directory, args, true) == "cd "@ + directory
            + " && .\\llama-server.exe "@ + args,
        script_model(directory, args, false) == "cd "@ + directory + " && ./llama-server "@ + args
            + " &"@,
        shell_model(true) == "cmd"@,
        shell_model(false) == "sh"@,
{
}

/// The embedding server at an address of a base, a colon and a port is started with its
/// model on that port.
pub proof fn lemma_embedding_command(
    directory: Seq<char>,
    model_path: Seq<char>,
    base: Seq<char>,
    port: Seq<char>,
)
    requires
        !port.contains(':'),
    ensures
        ({
            let args = embedding_args_model(
                model_path,
                after_last_colon(base.push(':') + port),
            );
            &&& script_model(directory, args, false) == "cd "@ + directory
                + " && ./llama-server -m "@ + model_path + " --host 0.0.0.0 --port "@ + port
                + " --embedding --n-gpu-layers 99 &"@
            &&& script_model(directory, args, true) == "cd "@ + directory
                + " && .\\llama-server.exe -m "@ + model_path + " --host 0.0.0.0 --port "@ + port
                + " --embedding --n-gpu-layers 99"@
        }),
{
    lemma_port_after_base(base, port);
    reveal_strlit("-m ");
    reveal_strlit(" &");
    reveal_strlit(" && ./llama-server ");
    reveal_strlit(" && ./llama-server -m ");
    reveal_strlit(" && .\\llama-server.exe ");
    reveal_strlit(" && .\\llama-server.exe -m ");
    reveal_strlit(" --embedding --n-gpu-layers 99");
    reveal_strlit(" --embedding --n-gpu-layers 99 &");
    assert(" && ./llama-server "@ + "-m "@ =~= " && ./llama-server -m "@);
    assert(" && .\\llama-server.exe "@ + "-m "@ =~= " && .\\llama-server.exe -m "@);
    assert(" --embedding --n-gpu-layers 99"@ + " &"@ =~= " --embedding --n-gpu-layers 99 &"@);
    let args = embedding_args_model(model_path, port);
    assert(script_model(directory, args, false) =~= "cd "@ + directory + (" && ./llama-server "@
        + "-m "@) + model_path + " --host 0.0.0.0 --port "@ + port + (
    " --embedding --n-gpu-layers 99"@ + " &"@));
    assert(script_model(directory, args, true) =~= "cd "@ + directory + (
    " && .\\llama-server.exe "@ + "-m "@) + model_path + " --host 0.0.0.0 --port "@ + port
        + " --embedding --n-gpu-layers 99"@);
}

/// The names that the environment is asked for to tune the chat server.
pub proof fn lemma_tuning_variables()
    ensures
        N_MOE_VARIABLE@ == "LLM_SERVER_N_MOE"@,
        CTX_SIZE_VARIABLE@ == "LLM_SERVER_CTX_SIZE"@,
        PARALLEL_VARIABLE@ == "LLM_SERVER_PARALLEL"@,
        CONT_BATCHING_VARIABLE@ == "LLM_SERVER_CONT_BATCHING"@,
        MLOCK_VARIABLE@ == "LLM_SERVER_MLOCK"@,
        NO_MMAP_VARIABLE@ == "LLM_SERVER_NO_MMAP"@,
        GPU_LAYERS_VARIABLE@ == "LLM_SERVER_GPU_LAYERS"@,
{
}

} // verus!
