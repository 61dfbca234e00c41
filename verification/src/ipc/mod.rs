pub mod pipe_server;
