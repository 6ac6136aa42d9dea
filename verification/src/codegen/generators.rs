pub mod date_time_util;
pub mod instance_struct_generator;
pub mod struct_generator;
