pub mod identity;
pub mod logparse;
pub mod probe;
pub mod remediation;
pub mod rewrite;
pub mod scan;
pub mod script;
pub mod text;
