use clap_clap::ext::log::{Error as LogError, Severity};
use clap_clap::ext::params::{ClearFlags, InfoFlags, RescanFlags};
use clap_clap::ext::resource_directory::{file_path_bytes, Error as DirError, ResourceDirectory};
use clap_clap::factory::{Error as FactoryError, Factory};
use clap_clap::params::ParamInfoFlags;
use clap_clap::plugin::{Error as PluginError, PluginDescriptor};
use clap_clap::process::Status;
use clap_clap::text::{copy_str_to_cbuf, decimal_string, find_nul, str_eq};

#[test]
fn severity_levels() {
    let all = [
        Severity::Debug,
        Severity::Info,
        Severity::Warning,
        Severity::Error,
        Severity::Fatal,
        Severity::ClapHostMisbehaving,
        Severity::ClapPluginMisbehaving,
    ];
    for (level, s) in all.iter().enumerate() {
        assert_eq!(i32::from(*s), level as i32);
        assert_eq!(Severity::try_from(level as i32), Ok(*s));
    }
    assert_eq!(Severity::try_from(7), Err(LogError::Severity(7)));
    assert_eq!(Severity::try_from(-1), Err(LogError::Severity(-1)));
}

#[test]
fn process_status_values() {
    assert_eq!(i32::from(Status::Continue), 1);
    assert_eq!(i32::from(Status::ContinueIfNotQuiet), 2);
    assert_eq!(i32::from(Status::Tail), 3);
    assert_eq!(i32::from(Status::Sleep), 4);
}

#[test]
fn param_flags() {
    assert_eq!(u32::from(InfoFlags::Stepped), 1);
    assert_eq!(u32::from(InfoFlags::Enum), 65536);
    assert_eq!(u32::from(ParamInfoFlags::IsBypass), 16);
    assert_eq!(u32::from(ParamInfoFlags::RequiresProcess), 32768);
    assert_eq!(RescanFlags::All.set(RescanFlags::Values.set(0)), 9);
    assert!(!ClearFlags::Automations.is_set(ClearFlags::Automations.clear(7)));
    assert_eq!(ClearFlags::Automations.clear(7), 5);
}

#[test]
fn file_path_encoding() {
    assert_eq!(file_path_bytes("a/b", 4), Some(b"a/b\0".to_vec()));
    assert_eq!(file_path_bytes("a/b", 3), None);
    assert_eq!(file_path_bytes("a\0b", 10), None);
    assert_eq!(file_path_bytes("", 1), Some(vec![0]));
    assert_eq!(file_path_bytes("", 0), None);
}

#[test]
fn no_resource_directory() {
    let mut s = String::new();
    assert_eq!(<() as ResourceDirectory<()>>::file_path(&(), 0, &mut s), Err(DirError::OutOfBounds));
    assert_eq!(<() as ResourceDirectory<()>>::files_count(&()), 0);
}

fn describe(id: &str, features: &Vec<&str>) -> Result<PluginDescriptor, PluginError> {
    PluginDescriptor::new(id, "Name", "Vendor", "", "", "", "1.0", "desc", features)
}

#[test]
fn plugin_descriptor_checks_strings() {
    let d = describe("com.example.gain", &vec!["audio-effect", "stereo"]).unwrap();
    assert_eq!(d.plugin_id(), "com.example.gain");
    assert_eq!(describe("com.ex\0ample", &vec![]).err(), Some(PluginError::NulError(6)));
    assert_eq!(describe("ok", &vec!["fine", "bad\0"]).err(), Some(PluginError::NulError(3)));
    assert_eq!(
        PluginDescriptor::new("id", "Na\0me", "\0", "", "", "", "", "", &vec![]).err(),
        Some(PluginError::NulError(2))
    );
}

#[test]
fn factory_lookup() {
    let f = Factory::new(
        vec!["a".to_string(), "b".to_string(), "a".to_string()],
        vec![10, 20, 30],
    );
    assert_eq!(f.plugins_count(), 3);
    assert_eq!(f.descriptor(1), Ok(&20));
    assert_eq!(f.descriptor(3), Err(FactoryError::IndexOutOfBounds(3)));
    assert_eq!(f.create_plugin("a"), Ok(&30));
    assert_eq!(f.create_plugin("b"), Ok(&20));
    assert_eq!(f.create_plugin("c"), Err(FactoryError::PluginIdNotFound));
}

#[test]
fn text_helpers() {
    assert_eq!(decimal_string(0), "0");
    assert_eq!(decimal_string(7), "7");
    assert_eq!(decimal_string(10), "10");
    assert_eq!(decimal_string(u32::MAX), "4294967295");
    assert!(str_eq("héllo", "héllo"));
    assert!(!str_eq("abc", "abd"));
    assert!(!str_eq("abc", "ab"));
    assert_eq!(find_nul("ab\0c\0"), Some(2));
    assert_eq!(find_nul("abc"), None);
    let mut buf = vec![9u8; 3];
    copy_str_to_cbuf("xyz", &mut buf);
    assert_eq!(buf, vec![b'x', b'y', 0]);
    let mut buf = vec![9u8; 5];
    copy_str_to_cbuf("a", &mut buf);
    assert_eq!(buf, vec![b'a', 0, 9, 9, 9]);
}
