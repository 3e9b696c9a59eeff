use openworkers_runtime::crypto::{
    aes_key_size, ecdsa_keys, ecdsa_signature, is_integer_view, native_aes_gcm_open,
    native_aes_gcm_seal, native_digest, native_ecdsa_generate_key, native_ecdsa_sign,
    native_ecdsa_verify,
    native_get_random_values, native_hmac_sign, native_hmac_verify, native_pbkdf2_derive_bits,
    native_random_uuid, native_rsa_sign, native_rsa_verify, random_uuid_result,
    random_values_result, try_pbkdf2_derive_bits, AesKeySize, HashAlgorithm, RandomError, RsaHash,
    ViewKind,
};

/// An RSA key for tests.
const RSA_PRIVATE: &str = "\
    308204a40201000282010100cea80475324c1dc8347827818da58bac069d3419c614a6ea1ac6a3b510dcd72c\
    c516954905e9fef908d45e13006adf27d467a7d83c111d1a5df15ef293771aefb920032a5bb989f8e4f5e1b0\
    5093d3f130f984c07a772a3683f4dc6fb28a96815b32123ccdd13954f19d5b8b24a103e771a34c328755c65e\
    d64e1924ffd04d30b2142cc262f6e0048fef6dbc652f21479ea1c4b1d66d28f4d46ef7185e390cbfa2e02380\
    582f3188bb94ebbf05d31487a09aff01fcbb4cd4bfd1f0a833b38c11813c84360bb53c7d4481031c40bad871\
    3bb6b835cb08098ed15ba31ee4ba728a8c8e10f7294e1b4163b7aee57277bfd881a6f9d43e02c6925aa3a043\
    fb7fb78d0203260445028201000997634c477c1a039d44c810b2aaa3c7862b0b88d3708272e1e15f66fc9389\
    709f8a11f3ea6a5af7effa2d01c189c50f0d5bcbe3fa272e56cfc4a4e1d388a9dcd65df8628902556c8b6bb6\
    a641709b5a35dd2622c73d4640bfa1359d0e76e1f219f8e33eb9bd0b59ec198eb2fccaae0346bd8b401e12e3\
    c67cb629569c185a2e0f35a2f741644c1cca5ebb139d77a89a2953fc5e30048c0e619f07c8d21d1e56b8af07\
    193d0fdf3f49cd49f2ef3138b5138862f1470bd2d16e34a2b9e7777a6c8c8d4cb94b4e8b5d616cd5393753e7\
    b0f31cc7da559ba8e98d888914e334773baf498ad88d9631eb5fe32e53a4145bf0ba548bf2b0a50c63f67b14\
    e398a34b0d02818100f364e16ef12017ec95b192308c01e087cee619ab50a5d537cc01841dc92b30bcef0d9f\
    2c6bbd5dc10bdf5b9f6c354a4f9f210520caa72b4f5c36b8d33f10324c55956141891e45b84b49f59ea5bfac\
    6ffa38900aca5099afcd02f6a8257c41ce5bb2e4153832b5c22f91eb389fa2035c3cf9b3374531c483cb30ce\
    b007259b1d02818100d95c0995fabdfcbccfe63e0f3262f806869ab571e1793e97234cbb9bd4b6872a769538\
    9955cf6ce7245345a5df8021f7d9519563afbc2667f5311fad093de2c02cd069109b630d68e3bf767f8a788a\
    6add7ab199f2d8f6a40b7c1910d9dab52ac80d0d333aacab321a9309dc884ddd4db637a0c1115ae3c08efa68\
    3f99eb733102818100d4f7ef9f9be947ba9d1b3bce59e5608839a1e464553e1b6d113d0f636758bbb473a89f\
    9949836ead40b6f314eee3ac2244d7b6f379e83f30e17783ad68d5086897889c051c26e1558a4a220bfc2429\
    95860644b5d7a3ef513ac612b9c6c0a2021bb6b9cde7dbd21fe5858746c79563e9bab7d06b43aab43a0a5caf\
    ab4519a6610281803db2386f174f2ea3ef4b6bd1601749ce2d6afa8be35f051178621f16a23ad36eba03c073\
    136389241969e5b87edb0fcbcf1a0bd6e1aee97bae1f2d97aabe19b17dbe7d9492cdb68a0897f572350e846c\
    669660dc978c5068da598524fca8a136358d3e5f8f6ad5cf78d9089c93f473189162ce0f8c4902a19902b633\
    b3e6926d02818100ddc971183dcf3450c43e06ba2af32379eedeb2d678513fb706b75a006098154041f4b09e\
    6be385d4b25d80ec241c899e4a986a17b0a121daab91a1e4fc5a1802a7074df3fb3f7661f0e1c97799e36d21\
    de937cc4209585db30a56af0a228e001036ed792625e5368ce101574a2e9767f07338949f0afdf358cecd18c\
    6d6f3f55";

/// Its public half.
const RSA_PUBLIC: &str = "\
    3082010a0282010100cea80475324c1dc8347827818da58bac069d3419c614a6ea1ac6a3b510dcd72cc51695\
    4905e9fef908d45e13006adf27d467a7d83c111d1a5df15ef293771aefb920032a5bb989f8e4f5e1b05093d3\
    f130f984c07a772a3683f4dc6fb28a96815b32123ccdd13954f19d5b8b24a103e771a34c328755c65ed64e19\
    24ffd04d30b2142cc262f6e0048fef6dbc652f21479ea1c4b1d66d28f4d46ef7185e390cbfa2e02380582f31\
    88bb94ebbf05d31487a09aff01fcbb4cd4bfd1f0a833b38c11813c84360bb53c7d4481031c40bad8713bb6b8\
    35cb08098ed15ba31ee4ba728a8c8e10f7294e1b4163b7aee57277bfd881a6f9d43e02c6925aa3a043fb7fb7\
    8d0203260445";

fn unhex(s: &str) -> Vec<u8> {
    (0..s.len() / 2).map(|i| u8::from_str_radix(&s[2 * i..2 * i + 2], 16).unwrap()).collect()
}

fn name(s: &str) -> Option<String> {
    Some(s.to_string())
}

fn bytes(s: &str) -> Option<Vec<u8>> {
    Some(s.as_bytes().to_vec())
}

#[test]
fn digests_are_those_of_the_standard() {
    assert_eq!(
        native_digest(2, name("SHA-256"), bytes("abc")),
        Some(unhex("ba7816bf8f01cfea414140de5dae2223b00361a396177a9cb410ff61f20015ad"))
    );
    assert_eq!(
        native_digest(2, name("sha-1"), bytes("abc")),
        Some(unhex("a9993e364706816aba3e25717850c26c9cd0d89d"))
    );
    assert_eq!(native_digest(2, name("SHA-384"), bytes("")).unwrap().len(), 48);
    assert_eq!(native_digest(2, name("SHA-512"), bytes("")).unwrap().len(), 64);
    assert_eq!(native_digest(2, name("MD5"), bytes("abc")), None);
    assert_eq!(native_digest(1, name("SHA-256"), bytes("abc")), None);
    assert_eq!(native_digest(2, name("SHA-256"), None), None);
}

#[test]
fn algorithms_are_known_by_name() {
    assert_eq!(HashAlgorithm::from_name("sha-512"), Some(HashAlgorithm::Sha512));
    assert_eq!(HashAlgorithm::from_uppercase("SHA-384"), Some(HashAlgorithm::Sha384));
    assert_eq!(HashAlgorithm::from_uppercase("sha-384"), None);
    assert_eq!(RsaHash::from_hash(Some(HashAlgorithm::Sha1)), None);
    assert_eq!(RsaHash::from_hash(Some(HashAlgorithm::Sha256)), Some(RsaHash::Sha256));
}

#[test]
fn a_signature_with_a_shared_key_is_verified() {
    let key = Some(vec![0x0b; 20]);
    let signature =
        native_hmac_sign(3, name("SHA-256"), key.clone(), bytes("Hi There")).unwrap();
    assert_eq!(
        signature,
        unhex("b0344c61d8db38535ca8afceaf0bf12b881dc200c9833da726e9376c2e32cff7")
    );
    let verify = |sig: Vec<u8>, data: &str| {
        native_hmac_verify(4, name("SHA-256"), key.clone(), Some(sig), bytes(data))
    };
    assert!(verify(signature.clone(), "Hi There"));
    assert!(!verify(signature.clone(), "hi there"));
    assert!(!verify(signature[1..].to_vec(), "Hi There"));
    assert!(!native_hmac_verify(3, name("SHA-256"), key.clone(), Some(signature), bytes("Hi There")));
}

#[test]
fn bits_are_derived_from_a_password() {
    let derive = |alg, iterations, bits| {
        native_pbkdf2_derive_bits(
            5,
            name(alg),
            bytes("password"),
            bytes("salt"),
            Some(iterations),
            Some(bits),
        )
    };
    assert_eq!(
        derive("SHA-1", 1, 160),
        Some(unhex("0c60c80f961f0e71f3a9b524af6012062fe037a6"))
    );
    assert_eq!(
        derive("SHA-1", 2, 160),
        Some(unhex("ea6c014dc72d6f8ccd1ed92ace1d41f0d8de8957"))
    );
    assert_eq!(
        derive("SHA-256", 2, 256),
        Some(unhex("ae4d0c95af6b46d32d0adff928f06dd02a303f8ef3c251dfd6e2d85a95474c43"))
    );
    assert_eq!(derive("SHA-1", 0, 160), derive("SHA-1", 1, 160));
    assert_eq!(derive("SHA-1", 1, 12).unwrap(), vec![0x0c]);
    assert_eq!(derive("MD5", 1, 160), None);
}

#[test]
fn sealing_gives_the_values_of_the_standard() {
    let key = Some(vec![0; 16]);
    let nonce = Some(vec![0; 12]);
    assert_eq!(
        native_aes_gcm_seal(key.clone(), nonce.clone(), bytes(""), bytes("")),
        Some(unhex("58e2fccefa7e3061367f1d57a4e7455a"))
    );
    assert_eq!(
        native_aes_gcm_seal(key, nonce, Some(vec![0; 16]), bytes("")),
        Some(unhex("0388dace60b6a392f328c2b971b2fe78ab6e47d42cec13bdf53a67b21257bddf"))
    );
}

#[test]
fn opening_gives_back_what_was_sealed() {
    let key = Some(vec![7; 32]);
    let nonce = Some(vec![9; 12]);
    let aad = bytes("header");
    let sealed =
        native_aes_gcm_seal(key.clone(), nonce.clone(), bytes("secret"), aad.clone()).unwrap();
    assert_eq!(sealed.len(), 22);
    let open = |data: Vec<u8>, aad: Option<Vec<u8>>| {
        native_aes_gcm_open(key.clone(), nonce.clone(), Some(data), aad)
    };
    assert_eq!(open(sealed.clone(), aad.clone()), bytes("secret"));
    assert_eq!(open(sealed.clone(), bytes("other")), None);
    let mut tampered = sealed.clone();
    tampered[0] ^= 1;
    assert_eq!(open(tampered, aad.clone()), None);
    assert_eq!(open(vec![1, 2], aad.clone()), None);
    assert_eq!(native_aes_gcm_seal(Some(vec![7; 24]), nonce.clone(), bytes("x"), aad.clone()), None);
    assert_eq!(native_aes_gcm_seal(key.clone(), Some(vec![9; 11]), bytes("x"), aad.clone()), None);
    assert_eq!(native_aes_gcm_seal(key, nonce, None, aad), None);
    assert_eq!(aes_key_size(16), Some(AesKeySize::Bits128));
    assert_eq!(aes_key_size(32), Some(AesKeySize::Bits256));
    assert_eq!(aes_key_size(24), None);
}

#[test]
fn a_signature_of_a_generated_key_is_accepted() {
    let keys = native_ecdsa_generate_key().unwrap();
    assert_eq!(keys.public_key.len(), 65);
    let signature =
        native_ecdsa_sign(2, Some(keys.private_key.clone()), bytes("message")).unwrap();
    let verify = |sig: Vec<u8>, data: &str| {
        native_ecdsa_verify(3, Some(keys.public_key.clone()), Some(sig), bytes(data))
    };
    assert!(verify(signature.clone(), "message"));
    assert!(!verify(signature.clone(), "another"));
    assert!(!verify(vec![0; 64], "message"));
    let other = native_ecdsa_generate_key().unwrap();
    assert_ne!(other.public_key, keys.public_key);
    assert!(!native_ecdsa_verify(3, Some(other.public_key), Some(signature), bytes("message")));
    assert_eq!(native_ecdsa_sign(2, Some(vec![1, 2, 3]), bytes("message")), None);
    assert_eq!(native_ecdsa_sign(1, Some(keys.private_key), bytes("message")), None);
    assert!(ecdsa_keys(None, Some(vec![1])).is_none());
    assert!(ecdsa_keys(Some(vec![1]), None).is_none());
    let given = |args, key: &Option<Vec<u8>>, data: &Option<Vec<u8>>| {
        ecdsa_signature(args, key, data, Some(vec![7; 64]))
    };
    assert_eq!(given(2, &Some(vec![1]), &Some(vec![2])), Some(vec![7; 64]));
    assert_eq!(given(1, &Some(vec![1]), &Some(vec![2])), None);
    assert_eq!(given(2, &None, &Some(vec![2])), None);
    assert_eq!(given(2, &Some(vec![1]), &None), None);
    assert_eq!(ecdsa_signature(2, &Some(vec![1]), &Some(vec![2]), None), None);
}

#[test]
fn an_rsa_signature_is_accepted() {
    let private = Some(unhex(RSA_PRIVATE));
    let public = Some(unhex(RSA_PUBLIC));
    for hash in ["SHA-256", "SHA-384", "SHA-512"] {
        let signature = native_rsa_sign(3, name(hash), private.clone(), bytes("m")).unwrap();
        assert_eq!(signature.len(), 256);
        let verify = |hash, sig: Vec<u8>, data| {
            native_rsa_verify(4, name(hash), public.clone(), Some(sig), bytes(data))
        };
        assert!(verify(hash, signature.clone(), "m"));
        assert!(!verify(hash, signature.clone(), "n"));
        assert!(!verify(hash, vec![0; 256], "m"));
    }
    assert_eq!(native_rsa_sign(3, name("SHA-1"), private.clone(), bytes("m")), None);
    assert_eq!(native_rsa_sign(3, name("SHA-256"), Some(vec![1]), bytes("m")), None);
    assert_eq!(native_rsa_sign(2, name("SHA-256"), private, bytes("m")), None);
}

#[test]
fn random_values_fill_an_array_of_integers() {
    let values = native_get_random_values(Some(ViewKind::Uint8), 64).unwrap();
    assert_eq!(values.len(), 64);
    assert_ne!(values, vec![0; 64]);
    assert_eq!(native_get_random_values(Some(ViewKind::Uint8), 65536).unwrap().len(), 65536);
    assert_eq!(
        native_get_random_values(Some(ViewKind::Uint8), 65537),
        Err(RandomError::QuotaExceeded)
    );
    assert_eq!(native_get_random_values(None, 4), Err(RandomError::TypeMismatch));
    assert_eq!(
        native_get_random_values(Some(ViewKind::Float), 4),
        Err(RandomError::TypeMismatch)
    );
    assert_eq!(random_values_result(None), Err(RandomError::Operation));
    assert!(is_integer_view(ViewKind::BigInt64));
    assert!(!is_integer_view(ViewKind::DataView));
    assert_eq!(RandomError::QuotaExceeded.name(), "QuotaExceededError");
    assert_eq!(
        RandomError::QuotaExceeded.message(),
        "crypto.getRandomValues accepts at most 65536 bytes"
    );
    assert_eq!(RandomError::Operation.name(), "OperationError");
    assert_eq!(
        RandomError::TypeMismatch.message(),
        "crypto.getRandomValues expects an integer TypedArray"
    );
}

#[test]
fn a_random_uuid_has_version_four() {
    let a = native_random_uuid().unwrap();
    assert_eq!(a.len(), 36);
    assert_eq!(&a[14..15], "4");
    assert!("89ab".contains(&a[19..20]));
    assert_ne!(Some(a), native_random_uuid());
}

#[test]
fn a_uuid_is_made_of_random_bytes() {
    assert_eq!(
        random_uuid_result(Some((0..16).collect())),
        Some("00010203-0405-4607-8809-0a0b0c0d0e0f".to_string())
    );
    assert_eq!(
        random_uuid_result(Some(vec![255; 16])),
        Some("ffffffff-ffff-4fff-bfff-ffffffffffff".to_string())
    );
    assert_eq!(random_uuid_result(None), None);
}

#[test]
fn pbkdf2_yields_no_more_than_it_can() {
    let derive = |alg, bits| {
        try_pbkdf2_derive_bits(5, name(alg), bytes("password"), bytes("salt"), Some(1), Some(bits))
    };
    assert_eq!(
        derive("SHA-1", 160),
        Some(Some(unhex("0c60c80f961f0e71f3a9b524af6012062fe037a6")))
    );
    assert_eq!(derive("SHA-1", 8 * (u32::MAX as usize * 20 + 1)), None);
    assert_eq!(derive("sha-512", 8 * (u32::MAX as usize * 64 + 1)), None);
    assert_eq!(derive("MD5", usize::MAX), Some(None));
}
