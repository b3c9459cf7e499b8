//! Where the files are kept. The library opens none of them; these are the
//! names that the program around it reads and writes under.

use vstd::prelude::*;

verus! {

/// The application directory, under the home directory of the user.
pub const APP_DIR: &'static str = "mkcert-rs";

/// The file of the identity, in the application directory.
pub const CONFIG_FILE: &'static str = "config.json";

/// The certificate of the root, in PEM, in the application directory.
pub const ROOT_CERT_FILE: &'static str = "rootCA.crt";

/// The private key of the root, in PEM, in the application directory.
pub const ROOT_KEY_FILE: &'static str = "rootCA.key";

/// The key and the certificate of the root as a PKCS#12 bundle, written where
/// a converter is at hand.
pub const ROOT_P12_FILE: &'static str = "rootCA.p12";

} // verus!
