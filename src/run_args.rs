use vstd::prelude::*;
use vstd::string::StringExecFns;

use crate::paths::{
    buffer_file_name, default_buffer_file, default_session_file, join_path, join_spec,
    session_file_name,
};
use crate::service::{ServiceConfig, SinkType};

verus! {

/// Where and what a recording runs with.
#[derive(Clone, Debug)]
pub struct RunArgs {
    pub session_dir: String,
    pub service_config: ServiceConfig,
    pub sink_type: SinkType,
}

impl RunArgs {
    pub fn new(session_dir: &str, service_config: ServiceConfig, sink_type: SinkType) -> (r:
        RunArgs)
        ensures
            r.session_dir@ == session_dir@,
            r.service_config == service_config,
            r.sink_type == sink_type,
    {
        RunArgs { session_dir: String::from_str(session_dir), service_config, sink_type }
    }

    pub fn get_yaml_file(&self) -> (r: String)
        ensures
            r@ == join_spec(self.session_dir@, session_file_name()),
    {
        join_path(self.session_dir.as_str(), default_session_file())
    }

    pub fn get_buffer_file(&self) -> (r: String)
        ensures
            r@ == join_spec(self.session_dir@, buffer_file_name()),
    {
        join_path(self.session_dir.as_str(), default_buffer_file())
    }
}

} // verus!
