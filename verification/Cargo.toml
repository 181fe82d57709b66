[package]
name = "local_llm"
version = "0.1.0"
edition = "2021"
publish = false

[dependencies]
gag = "1"
llama_cpp_rs = "*"
llm = "0.1"
rand = "0.8"
