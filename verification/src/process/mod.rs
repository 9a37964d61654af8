pub mod b64;
pub mod gen_pass;
pub mod text;

pub use b64::{process_decode, process_encode};
pub use gen_pass::process_genpass;
pub use text::{
    process_generate, process_sign, process_verify, sign, verify, Blake3, Ed25519Signer,
    Ed25519Verifier, KeyGenerator, KeyLoader, TextSign, TextVerify,
};
