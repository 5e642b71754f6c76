use llm_local::launch::{
    llm_server_args, llm_server_options, start_embedding_server, start_llm_server,
    thread_variables, LlmServerVariables,
};

fn unset() -> LlmServerVariables {
    LlmServerVariables {
        n_moe: None,
        ctx_size: None,
        parallel: None,
        cont_batching: None,
        mlock: None,
        no_mmap: None,
        gpu_layers: None,
    }
}

fn set(text: &str) -> Option<String> {
    Some(text.to_string())
}

#[test]
fn default_command_of_the_chat_server() {
    let c = start_llm_server(
        "/opt/llama",
        "m.gguf",
        "http://localhost:8081",
        &llm_server_options(unset()),
        false,
    );
    assert_eq!(c.program, "sh");
    assert_eq!(c.flag, "-c");
    assert_eq!(
        c.script,
        "cd /opt/llama && ./llama-server -m m.gguf --host 0.0.0.0 --port 8081 --top_p 0.95 \
         --temp 0.6 --ctx-size 4096 --repeat-penalty 1.2 -ngl 20 --n-cpu-moe 4 --cont-batching \
         --mlock --no-mmap &"
    );
}

#[test]
fn command_of_the_chat_server_on_windows() {
    let c = start_llm_server("d", "m", "h:1", &llm_server_options(unset()), true);
    assert_eq!(c.program, "cmd");
    assert_eq!(c.flag, "/C");
    assert_eq!(
        c.script,
        "cd d && .\\llama-server.exe -m m --host 0.0.0.0 --port 1 --top_p 0.95 --temp 0.6 \
         --ctx-size 4096 --repeat-penalty 1.2 -ngl 20 --n-cpu-moe 4 --cont-batching --mlock \
         --no-mmap"
    );
}

#[test]
fn options_change_the_arguments() {
    let options = llm_server_options(LlmServerVariables {
        n_moe: set("0"),
        ctx_size: set("8192"),
        parallel: set("2"),
        cont_batching: set("false"),
        mlock: set("no"),
        no_mmap: set("TRUE"),
        gpu_layers: set("99"),
    });
    assert_eq!(
        llm_server_args("m", "9", &options),
        "-m m --host 0.0.0.0 --port 9 --top_p 0.95 --temp 0.6 --ctx-size 8192 \
         --repeat-penalty 1.2 -ngl 99 --parallel 2"
    );
}

#[test]
fn commands_of_the_embedding_server() {
    let c = start_embedding_server("d", "e.gguf", "http://localhost:8082", false);
    assert_eq!(c.program, "sh");
    assert_eq!(c.flag, "-c");
    assert_eq!(
        c.script,
        "cd d && ./llama-server -m e.gguf --host 0.0.0.0 --port 8082 --embedding \
         --n-gpu-layers 99 &"
    );
    let c = start_embedding_server("d", "e.gguf", "http://localhost:8082", true);
    assert_eq!(c.program, "cmd");
    assert_eq!(c.flag, "/c");
    assert_eq!(
        c.script,
        "cd d && .\\llama-server.exe -m e.gguf --host 0.0.0.0 --port 8082 --embedding \
         --n-gpu-layers 99"
    );
}

#[test]
fn threads_are_tuned() {
    let v = thread_variables();
    assert_eq!(v[0], ("OMP_NUM_THREADS".to_string(), "20".to_string()));
    assert_eq!(v[1], ("OMP_PLACES".to_string(), "cores".to_string()));
    assert_eq!(v[2], ("OMP_PROC_BIND".to_string(), "close".to_string()));
    assert_eq!(v.len(), 3);
}
