//! Gateway configuration.
use vstd::prelude::*;

verus! {

#[derive(Debug)]
pub struct Conf {
    pub schema: String,
    pub local: LocalConf,
    pub remotes: Vec<RemoteConf>,
}

#[derive(Debug)]
pub struct LocalConf {
    pub port: u16,
    pub ttl: String,
    pub max_disk_usage: String,
    pub fuse_mount_point: String,
}

#[derive(Debug)]
pub struct RemoteConf {
    pub name: String,
    pub endpoint: String,
    pub profile: Option<String>,
}

/// The port that the gateway listens on unless configured otherwise.
pub const DEFAULT_PORT: u16 = 33333;

impl Default for Conf {
    /// A local gateway on the default port, with one remote named `default`
    /// at `localhost:9000`.
    fn default() -> (r: Conf)
        ensures
            r.schema@ == "https://s3d.rs/schemas/v0.0.1/config.schema.json"@,
            r.local.port == DEFAULT_PORT,
            r.local.ttl@ == "1h"@,
            r.local.max_disk_usage@ == "1G"@,
            r.local.fuse_mount_point@ == "/mnt/s3d"@,
            r.remotes@.len() == 1,
            r.remotes@[0].name@ == "default"@,
            r.remotes@[0].endpoint@ == "localhost:9000"@,
            r.remotes@[0].profile is None,
    {
        let mut remotes: Vec<RemoteConf> = Vec::new();
        remotes.push(
            RemoteConf {
                name: "default".to_owned(),
                endpoint: "localhost:9000".to_owned(),
                profile: None,
            },
        );
        Conf {
            schema: "https://s3d.rs/schemas/v0.0.1/config.schema.json".to_owned(),
            local: LocalConf {
                port: DEFAULT_PORT,
                ttl: "1h".to_owned(),
                max_disk_usage: "1G".to_owned(),
                fuse_mount_point: "/mnt/s3d".to_owned(),
            },
            remotes,
        }
    }
}

} // verus!
