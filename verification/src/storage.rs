//! Naming of the files through which the display configuration is replaced
//! atomically: the new configuration is written beside the old one under a
//! hidden temporary name, then renamed over it.

use vstd::prelude::*;
use crate::packet::push_all;

verus! {

/// `display-config.json`, the file name used where the configured path has
/// no usable one.
pub open spec fn default_config_file_name() -> Seq<u8> {
    seq![
        100u8, 105u8, 115u8, 112u8, 108u8, 97u8, 121u8, 45u8, 99u8, 111u8,
        110u8, 102u8, 105u8, 103u8, 46u8, 106u8, 115u8, 111u8, 110u8,
    ]
}

/// The temporary name for a configuration file named `name`: `.{name}.tmp`,
/// with `display-config.json` standing in where there is no name.
pub open spec fn spec_temporary_file_name(name: Option<Seq<u8>>) -> Seq<u8> {
    let n = match name {
        Some(n) => n,
        None => default_config_file_name(),
    };
    seq![46u8] + n + seq![46u8, 116u8, 109u8, 112u8]
}

/// The hidden temporary name under which a new configuration is written
/// before it replaces the file named `file_name` (`None` where the path has
/// no file name that is valid UTF-8): `.{file_name}.tmp`, or
/// `.display-config.json.tmp`.
pub fn temporary_file_name(file_name: Option<&[u8]>) -> (r: Vec<u8>)
    ensures
        r@ == spec_temporary_file_name(
            match file_name {
                Some(n) => Some(n@),
                None => None,
            },
        ),
{
    let mut out: Vec<u8> = Vec::new();
    out.push(46u8);
    match file_name {
        Some(n) => push_all(&mut out, n),
        None => {
            let fallback: [u8; 19] = [
                100, 105, 115, 112, 108, 97, 121, 45, 99, 111, 110, 102, 105, 103, 46, 106, 115,
                111, 110,
            ];
            assert(fallback@ == default_config_file_name());
            push_all(&mut out, &fallback);
        },
    }
    let suffix: [u8; 4] = [46, 116, 109, 112];
    assert(suffix@ == seq![46u8, 116u8, 109u8, 112u8]);
    push_all(&mut out, &suffix);
    proof {
        let n = match file_name {
            Some(n) => n@,
            None => default_config_file_name(),
        };
        assert(out@ =~= seq![46u8] + n + seq![46u8, 116u8, 109u8, 112u8]);
    }
    out
}

} // verus!
