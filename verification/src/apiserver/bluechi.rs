//! The unit files that let Bluechi run a pod from its kubernetes YAML.
//!
//! For a pod named `p` in directory `d`, the YAML goes to `d/p.yaml` and a
//! `.kube` unit at `d/p.kube` points at it.  Writing the files happens
//! where the service runs; their names and the unit's text are here.

use vstd::prelude::*;
use crate::text::concat3;

verus! {

/// The path of a pod's YAML file.
pub open spec fn spec_yaml_path(dir: Seq<char>, pod_name: Seq<char>) -> Seq<char> {
    dir + "/"@ + pod_name + ".yaml"@
}

/// The path of a pod's unit file.
pub open spec fn spec_kube_path(dir: Seq<char>, pod_name: Seq<char>) -> Seq<char> {
    dir + "/"@ + pod_name + ".kube"@
}

/// The text of a pod's unit file, which runs the YAML at `yaml_path`.
pub open spec fn spec_kube_contents(pod_name: Seq<char>, yaml_path: Seq<char>) -> Seq<char> {
    "[Unit]\nDescription=A kubernetes yaml based "@ + pod_name
        + " service\nAfter=network.target\n\n[Install]\n# Start by default on boot\nWantedBy=multi-user.target default.target\n\n[Kube]\nYaml="@
        + yaml_path + "\n\n[Service]\nRestart=no\n"@
}

/// Returns the path of a pod's YAML file.
pub fn yaml_file_path(dir: &str, pod_name: &str) -> (r: String)
    ensures
        r@ == spec_yaml_path(dir@, pod_name@),
{
    let mut p = concat3(dir, "/", pod_name);
    p.append(".yaml");
    p
}

/// Returns the path of a pod's unit file.
pub fn kube_file_path(dir: &str, pod_name: &str) -> (r: String)
    ensures
        r@ == spec_kube_path(dir@, pod_name@),
{
    let mut p = concat3(dir, "/", pod_name);
    p.append(".kube");
    p
}

/// Returns the text of a pod's unit file.
pub fn kube_file_contents(pod_name: &str, yaml_path: &str) -> (r: String)
    ensures
        r@ == spec_kube_contents(pod_name@, yaml_path@),
{
    let mut t = concat3("[Unit]\nDescription=A kubernetes yaml based ", pod_name,
        " service\nAfter=network.target\n\n[Install]\n# Start by default on boot\nWantedBy=multi-user.target default.target\n\n[Kube]\nYaml=");
    t.append(yaml_path);
    t.append("\n\n[Service]\nRestart=no\n");
    t
}

/// The unit file of a pod in `dir`: its path and its text.
pub fn make_kube_file(dir: &str, pod_name: &str) -> (r: (String, String))
    ensures
        r.0@ == spec_kube_path(dir@, pod_name@),
        r.1@ == spec_kube_contents(pod_name@, spec_yaml_path(dir@, pod_name@)),
{
    let yaml = yaml_file_path(dir, pod_name);
    (kube_file_path(dir, pod_name), kube_file_contents(pod_name, yaml.as_str()))
}

} // verus!
