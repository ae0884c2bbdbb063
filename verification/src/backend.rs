//! The GUI's demo backend: a fixed GRUB configuration, used when no daemon
//! is reachable so the interface can be shown and tried without effect.
//! The D-Bus backend is the GUI's I/O.

use vstd::prelude::*;
use vstd::string::StringExecFns;

verus! {

/// The ETag the demo backend reports.
pub const MOCK_ETAG: &'static str = "mock-etag-12345";

/// The backend name the demo backend reports.
pub const MOCK_BACKEND_NAME: &'static str = "grub (mock)";

/// The demo configuration, key by key.
pub open spec fn mock_config() -> Seq<(Seq<char>, Seq<char>)> {
    seq![
        ("GRUB_TIMEOUT"@, "5"@),
        ("GRUB_DEFAULT"@, "0"@),
        ("GRUB_DISTRIBUTOR"@, "MockOS"@),
        ("GRUB_CMDLINE_LINUX_DEFAULT"@, "quiet splash"@),
        ("GRUB_DISABLE_OS_PROBER"@, "false"@),
    ]
}

/// A backend that serves a fixed configuration and accepts every write
/// without effect.
#[derive(Debug, Clone, Copy, PartialEq, Eq, Structural)]
pub struct MockBackend;

fn pair(k: &str, v: &str) -> (p: (String, String))
    ensures
        p.0@ == k@,
        p.1@ == v@,
{
    (String::from_str(k), String::from_str(v))
}

impl MockBackend {
    /// The demo configuration and its ETag.
    pub fn read_config(&self) -> (r: (Vec<(String, String)>, String))
        ensures
            r.0@.map_values(|p: (String, String)| (p.0@, p.1@)) == mock_config(),
            r.1@ == MOCK_ETAG@,
    {
        let v = vec![
            pair("GRUB_TIMEOUT", "5"),
            pair("GRUB_DEFAULT", "0"),
            pair("GRUB_DISTRIBUTOR", "MockOS"),
            pair("GRUB_CMDLINE_LINUX_DEFAULT", "quiet splash"),
            pair("GRUB_DISABLE_OS_PROBER", "false"),
        ];
        assert(v@.map_values(|p: (String, String)| (p.0@, p.1@)) =~= mock_config());
        (v, String::from_str(MOCK_ETAG))
    }

    /// A write to the demo backend succeeds and changes nothing.
    pub fn set_value(&self, key: &str, value: &str, etag: &str) -> (r: Result<(), String>)
        ensures
            r is Ok,
    {
        Ok(())
    }

    /// The demo backend's name.
    pub fn get_active_backend(&self) -> (n: String)
        ensures
            n@ == MOCK_BACKEND_NAME@,
    {
        String::from_str(MOCK_BACKEND_NAME)
    }
}

} // verus!
