use pkcs11::constants::{
    CKA_CLASS, CKA_KEY_TYPE, CKA_MODULUS, CKA_MODULUS_BITS, CKA_SENSITIVE, CKA_VALUE, CKK_RSA,
    CKO_PRIVATE_KEY, CKO_PUBLIC_KEY, CKR_ATTRIBUTE_SENSITIVE, CKR_ATTRIBUTE_TYPE_INVALID,
    CKR_BUFFER_TOO_SMALL, CKR_CRYPTOKI_ALREADY_INITIALIZED, CKR_CRYPTOKI_NOT_INITIALIZED,
    CKR_GENERAL_ERROR, CKR_KEY_HANDLE_INVALID, CKR_OBJECT_HANDLE_INVALID, CKR_OK,
    CKR_SESSION_HANDLE_INVALID, CKR_SIGNATURE_INVALID, CK_UNAVAILABLE_INFORMATION,
};
use pkcs11::gateway::{Call, Function, FunctionList, Operation, Reply, Step};
use pkcs11::types::function::RvError;
use pkcs11::types::locking::CInitializeArgs;
use pkcs11::types::mechanism::Mechanism;
use pkcs11::types::object::{Attribute, AttributeInfo, AttributeType, RawAttribute};
use pkcs11::types::session::UserType;
use pkcs11::types::Flags;
use pkcs11::{Error, Pkcs11};

/// An object of the token: its handle, its attributes as the bytes that came in the template,
/// and, for a key, the number of the pair that it belongs to.
struct Object {
    handle: u64,
    attributes: Vec<(u64, Vec<u8>)>,
    pair: u8,
}

/// A module in memory that stands in for the one at `path`: it answers the calls that the
/// library hands out, and keeps count of them.
struct Token {
    path: String,
    initialized: bool,
    sessions: Vec<u64>,
    logged_in: bool,
    objects: Vec<Object>,
    next_handle: u64,
    search: Option<Vec<u64>>,
    active_key: Option<u8>,
    calls: Vec<Function>,
}

fn ulong(bytes: &[u8]) -> u64 {
    let mut word = [0u8; 8];
    word.copy_from_slice(bytes);
    u64::from_ne_bytes(word)
}

fn attributes_of(template: &[RawAttribute]) -> Vec<(u64, Vec<u8>)> {
    template
        .iter()
        .map(|raw| {
            let buffer = raw.value.as_ref().expect("a template to set has its values");
            (raw.type_, buffer[..raw.len as usize].to_vec())
        })
        .collect()
}

impl Token {
    fn at(path: &str) -> Token {
        Token {
            path: path.to_string(),
            initialized: false,
            sessions: Vec::new(),
            logged_in: false,
            objects: Vec::new(),
            next_handle: 1,
            search: None,
            active_key: None,
            calls: Vec::new(),
        }
    }

    fn handle(&mut self) -> u64 {
        self.next_handle += 1;
        self.next_handle
    }

    fn knows(&self, session: u64) -> bool {
        self.initialized && self.sessions.contains(&session)
    }

    fn pair_of(&self, key: u64) -> Option<u8> {
        self.objects.iter().find(|object| object.handle == key).map(|object| object.pair)
    }

    fn signature(pair: u8, data: &[u8]) -> Vec<u8> {
        (0..128usize).map(|i| pair ^ (i as u8) ^ data[i % data.len()]).collect()
    }

    fn output(&self, capacity: Option<usize>, bytes: Vec<u8>, bound: usize) -> Reply {
        match capacity {
            None => Reply { value: bound as u64, ..Reply::status(CKR_OK) },
            Some(capacity) if capacity < bytes.len() => {
                Reply { value: bytes.len() as u64, ..Reply::status(CKR_BUFFER_TOO_SMALL) }
            }
            Some(capacity) => {
                let mut buffer = vec![0xEE; capacity];
                buffer[..bytes.len()].copy_from_slice(&bytes);
                Reply { value: bytes.len() as u64, bytes: buffer, ..Reply::status(CKR_OK) }
            }
        }
    }

    fn bind(&mut self, session: u64, key: u64) -> Reply {
        if !self.knows(session) {
            return Reply::status(CKR_SESSION_HANDLE_INVALID);
        }
        match self.pair_of(key) {
            None => Reply::status(CKR_KEY_HANDLE_INVALID),
            Some(pair) => {
                self.active_key = Some(pair);
                Reply::status(CKR_OK)
            }
        }
    }

    fn read(&self, object: u64, template: &[RawAttribute]) -> Reply {
        let object = match self.objects.iter().find(|o| o.handle == object) {
            None => return Reply::status(CKR_OBJECT_HANDLE_INVALID),
            Some(object) => object,
        };
        let sensitive = object
            .attributes
            .iter()
            .any(|(type_, bytes)| *type_ == CKA_SENSITIVE && bytes == &[1]);
        let mut rv = CKR_OK;
        let mut answer = Vec::new();
        for raw in template {
            let held = object.attributes.iter().find(|(type_, _)| *type_ == raw.type_);
            let mut triple = raw.clone();
            match held {
                None => {
                    triple.len = CK_UNAVAILABLE_INFORMATION;
                    rv = CKR_ATTRIBUTE_TYPE_INVALID;
                }
                Some(_) if sensitive && raw.type_ == CKA_VALUE => {
                    triple.len = CK_UNAVAILABLE_INFORMATION;
                    rv = CKR_ATTRIBUTE_SENSITIVE;
                }
                Some((_, bytes)) => match triple.value.as_mut() {
                    None => triple.len = bytes.len() as u64,
                    Some(buffer) if (raw.len as usize) < bytes.len() || buffer.len() < bytes.len() => {
                        triple.len = CK_UNAVAILABLE_INFORMATION;
                        rv = CKR_BUFFER_TOO_SMALL;
                    }
                    Some(buffer) => {
                        buffer[..bytes.len()].copy_from_slice(bytes);
                        triple.len = bytes.len() as u64;
                    }
                },
            }
            answer.push(triple);
        }
        Reply { template: answer, ..Reply::status(rv) }
    }

    fn perform(&mut self, call: Call) -> Reply {
        self.calls.push(call.function());
        match call {
            Call::Initialize { .. } => {
                if self.initialized {
                    return Reply::status(CKR_CRYPTOKI_ALREADY_INITIALIZED);
                }
                self.initialized = true;
                Reply::status(CKR_OK)
            }
            Call::Finalize => {
                if !self.initialized {
                    return Reply::status(CKR_CRYPTOKI_NOT_INITIALIZED);
                }
                self.initialized = false;
                self.sessions.clear();
                Reply::status(CKR_OK)
            }
            _ if !self.initialized => Reply::status(CKR_CRYPTOKI_NOT_INITIALIZED),
            Call::GetSlotList { capacity: None, .. } => Reply { value: 1, ..Reply::status(CKR_OK) },
            Call::GetSlotList { capacity: Some(capacity), .. } => {
                let mut slots = vec![0; capacity];
                if capacity < 1 {
                    return Reply { value: 1, ..Reply::status(CKR_BUFFER_TOO_SMALL) };
                }
                slots[0] = 0x2A;
                Reply { value: 1, handles: slots, ..Reply::status(CKR_OK) }
            }
            Call::OpenSession { slot_id, .. } => {
                if slot_id != 0x2A {
                    return Reply::status(3);
                }
                let session = self.handle();
                self.sessions.push(session);
                Reply { value: session, ..Reply::status(CKR_OK) }
            }
            Call::CloseSession { session } => {
                if !self.knows(session) {
                    return Reply::status(CKR_SESSION_HANDLE_INVALID);
                }
                self.sessions.retain(|open| *open != session);
                Reply::status(CKR_OK)
            }
            Call::Login { session, pin, .. } => {
                if !self.knows(session) {
                    return Reply::status(CKR_SESSION_HANDLE_INVALID);
                }
                if pin != b"123456" {
                    return Reply::status(0xA0);
                }
                self.logged_in = true;
                Reply::status(CKR_OK)
            }
            Call::Logout { session } => {
                if !self.knows(session) {
                    return Reply::status(CKR_SESSION_HANDLE_INVALID);
                }
                self.logged_in = false;
                Reply::status(CKR_OK)
            }
            Call::CreateObject { session, template } => {
                if !self.knows(session) {
                    return Reply::status(CKR_SESSION_HANDLE_INVALID);
                }
                let handle = self.handle();
                let pair = handle as u8;
                self.objects.push(Object { handle, attributes: attributes_of(template), pair });
                Reply { value: handle, ..Reply::status(CKR_OK) }
            }
            Call::DestroyObject { session, object } => {
                if !self.knows(session) {
                    return Reply::status(CKR_SESSION_HANDLE_INVALID);
                }
                let before = self.objects.len();
                self.objects.retain(|held| held.handle != object);
                if self.objects.len() == before {
                    return Reply::status(CKR_OBJECT_HANDLE_INVALID);
                }
                Reply::status(CKR_OK)
            }
            Call::GetAttributeValue { session, object, template } => {
                if !self.knows(session) {
                    return Reply::status(CKR_SESSION_HANDLE_INVALID);
                }
                self.read(object, template)
            }
            Call::FindObjectsInit { session, template } => {
                if !self.knows(session) {
                    return Reply::status(CKR_SESSION_HANDLE_INVALID);
                }
                let wanted = attributes_of(template);
                let found = self
                    .objects
                    .iter()
                    .filter(|object| wanted.iter().all(|pair| object.attributes.contains(pair)))
                    .map(|object| object.handle)
                    .collect();
                self.search = Some(found);
                Reply::status(CKR_OK)
            }
            Call::FindObjects { max_object_count, .. } => match self.search.as_mut() {
                None => Reply::status(0x91),
                Some(left) => {
                    let count = left.len().min(max_object_count);
                    let mut buffer: Vec<u64> = left.drain(..count).collect();
                    buffer.resize(max_object_count, 0);
                    Reply { value: count as u64, handles: buffer, ..Reply::status(CKR_OK) }
                }
            },
            Call::FindObjectsFinal { .. } => {
                self.search = None;
                Reply::status(CKR_OK)
            }
            Call::GenerateKeyPair { session, mechanism, public_template, private_template } => {
                if !self.knows(session) {
                    return Reply::status(CKR_SESSION_HANDLE_INVALID);
                }
                if *mechanism != Mechanism::RsaPkcsKeyPairGen {
                    return Reply::status(0x70);
                }
                let mut public = attributes_of(public_template);
                let bits = match public.iter().find(|(type_, _)| *type_ == CKA_MODULUS_BITS) {
                    None => return Reply::status(0xD0),
                    Some((_, bytes)) => ulong(bytes),
                };
                let public_handle = self.handle();
                let private_handle = self.handle();
                let pair = public_handle as u8;
                public.push((CKA_CLASS, CKO_PUBLIC_KEY.to_ne_bytes().to_vec()));
                public.push((CKA_KEY_TYPE, CKK_RSA.to_ne_bytes().to_vec()));
                public.push((CKA_MODULUS, vec![pair; (bits / 8) as usize]));
                let mut private = attributes_of(private_template);
                private.push((CKA_CLASS, CKO_PRIVATE_KEY.to_ne_bytes().to_vec()));
                private.push((CKA_SENSITIVE, vec![1]));
                private.push((CKA_VALUE, vec![pair; 16]));
                self.objects.push(Object { handle: public_handle, attributes: public, pair });
                self.objects.push(Object { handle: private_handle, attributes: private, pair });
                Reply { value: public_handle, second: private_handle, ..Reply::status(CKR_OK) }
            }
            Call::SignInit { session, key, .. }
            | Call::VerifyInit { session, key, .. }
            | Call::EncryptInit { session, key, .. }
            | Call::DecryptInit { session, key, .. } => self.bind(session, key),
            Call::Sign { data, capacity, .. } => match self.active_key {
                None => Reply::status(0x91),
                Some(pair) => {
                    if capacity.is_some() {
                        self.active_key = None;
                    }
                    self.output(capacity, Token::signature(pair, data), 128)
                }
            },
            Call::Verify { data, signature, .. } => match self.active_key.take() {
                None => Reply::status(0x91),
                Some(pair) if Token::signature(pair, data) == signature => Reply::status(CKR_OK),
                Some(_) => Reply::status(CKR_SIGNATURE_INVALID),
            },
            Call::Encrypt { data, capacity, .. } => match self.active_key {
                None => Reply::status(0x91),
                Some(pair) => {
                    if capacity.is_some() {
                        self.active_key = None;
                    }
                    let mut block = vec![0x5A; 128];
                    block[0] = data.len() as u8;
                    for (i, byte) in data.iter().enumerate() {
                        block[i + 1] = byte ^ pair;
                    }
                    self.output(capacity, block, 128)
                }
            },
            Call::Decrypt { data, capacity, .. } => match self.active_key {
                None => Reply::status(0x91),
                Some(pair) => {
                    if capacity.is_some() {
                        self.active_key = None;
                    }
                    if data.len() != 128 || data[0] as usize > 127 {
                        return Reply::status(0x40);
                    }
                    let len = data[0] as usize;
                    let plain = data[1..=len].iter().map(|byte| byte ^ pair).collect();
                    self.output(capacity, plain, 128)
                }
            },
            _ => Reply::status(CKR_GENERAL_ERROR),
        }
    }

    fn count(&self, function: Function) -> usize {
        self.calls.iter().filter(|called| **called == function).count()
    }
}

/// Drives an operation against the token: asks for the call, performs it, resumes with the
/// reply, until the operation ends.
fn run<M: Operation>(token: &mut Token, mut op: M) -> Result<M::Output, Error> {
    loop {
        let reply = {
            let call = op.call()?;
            token.perform(call)
        };
        match op.resume(reply) {
            Step::Continue(next) => op = next,
            Step::Done(result) => return result,
        }
    }
}

#[test]
fn sign_verify() {
    let mut token = Token::at("/usr/local/lib/softhsm/libsofthsm2.so");
    let pkcs11 = Pkcs11::new(FunctionList::uniform(true));

    // initialize the library
    run(&mut token, pkcs11.initialize(CInitializeArgs::OsThreads)).unwrap();

    // find a slot, get the first one
    let slot = run(&mut token, pkcs11.get_slots_with_token()).unwrap().remove(0);

    // set flags
    let mut flags = Flags::new();
    flags.set_rw_session(true).set_serial_session(true);

    // open a session
    let session = run(&mut token, pkcs11.open_session_no_callback(&slot, flags)).unwrap();

    let pin = String::from("123456");

    // log in the session
    run(&mut token, session.login(UserType::User, &pin).unwrap()).unwrap();

    // get mechanism
    let mechanism = Mechanism::RsaPkcsKeyPairGen;

    let public_exponent: Vec<u8> = vec![0x01, 0x00, 0x01];
    let modulus_bits: u64 = 1024;

    // pub key template
    let pub_key_template = vec![
        Attribute::Token(true.into()),
        Attribute::Private(false.into()),
        Attribute::PublicExponent(public_exponent),
        Attribute::ModulusBits(modulus_bits.into()),
    ];

    // priv key template
    let priv_key_template = vec![Attribute::Token(true.into())];

    // generate a key pair
    let (public, private) = run(
        &mut token,
        pkcs11
            .generate_key_pair(&session, &mechanism, &pub_key_template, &priv_key_template)
            .unwrap(),
    )
    .unwrap();

    // data to sign
    let data = [0xFF, 0x55, 0xDD];

    // sign something with it
    let signature = run(&mut token, pkcs11.sign(&session, &Mechanism::RsaPkcs, private, &data)).unwrap();

    // verify the signature
    run(&mut token, pkcs11.verify(&session, &Mechanism::RsaPkcs, public, &data, &signature)).unwrap();

    // delete keys
    run(&mut token, pkcs11.destroy_object(&session, public)).unwrap();
    run(&mut token, pkcs11.destroy_object(&session, private)).unwrap();

    // log out
    run(&mut token, session.logout()).unwrap();

    // close session
    run(&mut token, session.close()).unwrap();

    assert_eq!(token.path, "/usr/local/lib/softhsm/libsofthsm2.so");
    assert_eq!(signature.len(), 128);
    assert_eq!(token.count(Function::SignInit), 1);
    assert_eq!(token.count(Function::Sign), 2);
    assert_eq!(token.count(Function::VerifyInit), 1);
    assert_eq!(token.count(Function::Verify), 1);
    assert_eq!(token.count(Function::GetSlotList), 2);
    assert!(!token.logged_in);
}

#[test]
fn encrypt_decrypt() {
    let mut token = Token::at("/usr/local/lib/softhsm/libsofthsm2.so");
    let pkcs11 = Pkcs11::new(FunctionList::uniform(true));

    // initialize the library
    run(&mut token, pkcs11.initialize(CInitializeArgs::OsThreads)).unwrap();

    // find a slot, get the first one
    let slot = run(&mut token, pkcs11.get_slots_with_token()).unwrap().remove(0);

    // set flags
    let mut flags = Flags::new();
    flags.set_rw_session(true).set_serial_session(true);

    // open a session
    let session = run(&mut token, pkcs11.open_session_no_callback(&slot, flags)).unwrap();

    let pin = String::from("123456");

    // log in the session
    run(&mut token, session.login(UserType::User, &pin).unwrap()).unwrap();

    // get mechanism
    let mechanism = Mechanism::RsaPkcsKeyPairGen;

    let public_exponent: Vec<u8> = vec![0x01, 0x00, 0x01];
    let modulus_bits: u64 = 1024;

    // pub key template
    let pub_key_template = vec![
        Attribute::Token(true.into()),
        Attribute::Private(false.into()),
        Attribute::PublicExponent(public_exponent),
        Attribute::ModulusBits(modulus_bits.into()),
        Attribute::Encrypt(true.into()),
    ];

    // priv key template
    let priv_key_template = vec![Attribute::Token(true.into()), Attribute::Decrypt(true.into())];

    // generate a key pair
    let (public, private) = run(
        &mut token,
        pkcs11
            .generate_key_pair(&session, &mechanism, &pub_key_template, &priv_key_template)
            .unwrap(),
    )
    .unwrap();

    // data to encrypt
    let data = vec![0xFF, 0x55, 0xDD];

    // encrypt something with it
    let encrypted_data =
        run(&mut token, pkcs11.encrypt(&session, &Mechanism::RsaPkcs, public, &data)).unwrap();

    // decrypt
    let decrypted_data =
        run(&mut token, pkcs11.decrypt(&session, &Mechanism::RsaPkcs, private, &encrypted_data))
            .unwrap();

    // The buffer that the module asks for is bigger than the data that comes back.
    assert_eq!(data, decrypted_data);

    // delete keys
    run(&mut token, pkcs11.destroy_object(&session, public)).unwrap();
    run(&mut token, pkcs11.destroy_object(&session, private)).unwrap();

    // log out
    run(&mut token, session.logout()).unwrap();

    // close session
    run(&mut token, session.close()).unwrap();

    assert_eq!(encrypted_data.len(), 128);
    assert_ne!(encrypted_data[1..4], data[..]);
}

#[test]
fn import_export() {
    let mut token = Token::at("/usr/local/lib/softhsm/libsofthsm2.so");
    let pkcs11 = Pkcs11::new(FunctionList::uniform(true));

    // initialize the library
    run(&mut token, pkcs11.initialize(CInitializeArgs::OsThreads)).unwrap();

    // find a slot, get the first one
    let slot = run(&mut token, pkcs11.get_slots_with_token()).unwrap().remove(0);

    // set flags
    let mut flags = Flags::new();
    flags.set_rw_session(true).set_serial_session(true);

    // open a session
    let session = run(&mut token, pkcs11.open_session_no_callback(&slot, flags)).unwrap();

    let pin = String::from("123456");

    // log in the session
    run(&mut token, session.login(UserType::User, &pin).unwrap()).unwrap();

    let public_exponent: Vec<u8> = vec![0x01, 0x00, 0x01];
    let modulus = vec![0xFF; 1024];

    let template = vec![
        Attribute::Token(true.into()),
        Attribute::Private(false.into()),
        Attribute::PublicExponent(public_exponent),
        Attribute::Modulus(modulus.clone()),
        Attribute::Class(CKO_PUBLIC_KEY),
        Attribute::KeyType(CKK_RSA),
        Attribute::Verify(true.into()),
    ];

    {
        // Intentionally forget the object handle to find it later
        let _public_key = run(&mut token, pkcs11.create_object(&session, &template).unwrap()).unwrap();
    }

    let is_it_the_public_key =
        run(&mut token, pkcs11.find_objects(&session, &template).unwrap()).unwrap().remove(0);

    let attribute_info = run(
        &mut token,
        pkcs11.get_attribute_info(&session, is_it_the_public_key, &[AttributeType::Modulus]),
    )
    .unwrap()
    .remove(0);

    let size = if let AttributeInfo::Available(size) = attribute_info {
        assert_eq!(size, 1024);
        size
    } else {
        panic!("The Modulus attribute was expected to be present.")
    };

    let attr = run(
        &mut token,
        pkcs11
            .get_attribute_value(
                &session,
                is_it_the_public_key,
                &[Attribute::Modulus(vec![0; size])],
            )
            .unwrap(),
    )
    .unwrap()
    .remove(0);

    if let Attribute::Modulus(modulus_cmp) = attr {
        assert_eq!(modulus[..], modulus_cmp[..]);
    } else {
        panic!("Expected the Modulus attribute.");
    }

    // delete key
    run(&mut token, pkcs11.destroy_object(&session, is_it_the_public_key)).unwrap();

    // log out
    run(&mut token, session.logout()).unwrap();

    // close session
    run(&mut token, session.close()).unwrap();

    assert_eq!(token.count(Function::FindObjectsInit), 1);
    assert_eq!(token.count(Function::FindObjects), 2);
    assert_eq!(token.count(Function::FindObjectsFinal), 1);
    assert_eq!(token.count(Function::GetAttributeValue), 3);
    assert!(token.objects.is_empty());
}

fn ready(token: &mut Token, pkcs11: &Pkcs11) -> u64 {
    run(token, pkcs11.initialize(CInitializeArgs::OsThreads)).unwrap();
    let slot = run(token, pkcs11.get_slots_with_token()).unwrap().remove(0);
    let mut flags = Flags::new();
    flags.set_rw_session(true).set_serial_session(true);
    let session = run(token, pkcs11.open_session_no_callback(&slot, flags)).unwrap();
    run(token, session.login(UserType::User, "123456").unwrap()).unwrap();
    session.handle()
}

#[test]
fn a_destroyed_key_is_an_invalid_handle_afterwards() {
    let mut token = Token::at("/usr/local/lib/softhsm/libsofthsm2.so");
    let pkcs11 = Pkcs11::new(FunctionList::uniform(true));
    ready(&mut token, &pkcs11);
    let slot = run(&mut token, pkcs11.get_slots_with_token()).unwrap().remove(0);
    let session = run(&mut token, pkcs11.open_session_no_callback(&slot, Flags::new())).unwrap();
    let mechanism = Mechanism::RsaPkcsKeyPairGen;
    let public_template =
        vec![Attribute::ModulusBits(1024), Attribute::PublicExponent(vec![0x01, 0x00, 0x01])];
    let (public, private) = run(
        &mut token,
        pkcs11.generate_key_pair(&session, &mechanism, &public_template, &[]).unwrap(),
    )
    .unwrap();
    let data = [0xFF, 0x55, 0xDD];
    let signature = run(&mut token, pkcs11.sign(&session, &Mechanism::RsaPkcs, private, &data)).unwrap();
    assert_eq!(
        run(&mut token, pkcs11.verify(&session, &Mechanism::RsaPkcs, public, &data, &signature)),
        Ok(())
    );
    assert_eq!(
        run(&mut token, pkcs11.verify(&session, &Mechanism::RsaPkcs, public, &[1, 2, 3], &signature)),
        Err(Error::Pkcs11(RvError::SignatureInvalid))
    );

    assert_eq!(run(&mut token, pkcs11.destroy_object(&session, private)), Ok(()));
    let calls = token.calls.len();
    assert_eq!(
        run(&mut token, pkcs11.sign(&session, &Mechanism::RsaPkcs, private, &data)),
        Err(Error::Pkcs11(RvError::KeyHandleInvalid))
    );
    assert_eq!(token.calls.len(), calls + 1);
    assert_eq!(
        run(&mut token, pkcs11.destroy_object(&session, private)),
        Err(Error::Pkcs11(RvError::ObjectHandleInvalid))
    );
    assert_eq!(run(&mut token, pkcs11.destroy_object(&session, public)), Ok(()));
    assert_eq!(
        run(&mut token, pkcs11.verify(&session, &Mechanism::RsaPkcs, public, &data, &signature)),
        Err(Error::Pkcs11(RvError::KeyHandleInvalid))
    );
    assert_eq!(
        run(&mut token, pkcs11.get_attribute_info(&session, public, &[AttributeType::Modulus])),
        Err(Error::Pkcs11(RvError::ObjectHandleInvalid))
    );
}

#[test]
fn a_closed_session_is_an_invalid_handle_afterwards() {
    let mut token = Token::at("/usr/local/lib/softhsm/libsofthsm2.so");
    let pkcs11 = Pkcs11::new(FunctionList::uniform(true));
    ready(&mut token, &pkcs11);
    let slot = run(&mut token, pkcs11.get_slots_with_token()).unwrap().remove(0);
    let session = run(&mut token, pkcs11.open_session_no_callback(&slot, Flags::new())).unwrap();
    assert_eq!(run(&mut token, session.close()), Ok(()));
    assert_eq!(
        run(&mut token, session.close()),
        Err(Error::Pkcs11(RvError::SessionHandleInvalid))
    );
    assert_eq!(
        run(&mut token, session.logout()),
        Err(Error::Pkcs11(RvError::SessionHandleInvalid))
    );
    assert_eq!(
        run(&mut token, pkcs11.find_objects(&session, &[]).unwrap()),
        Err(Error::Pkcs11(RvError::SessionHandleInvalid))
    );
    assert_eq!(token.count(Function::FindObjects), 0);
    assert_eq!(token.count(Function::FindObjectsFinal), 0);
}

#[test]
fn the_module_is_initialised_once() {
    let mut token = Token::at("/usr/local/lib/softhsm/libsofthsm2.so");
    let pkcs11 = Pkcs11::new(FunctionList::uniform(true));
    assert_eq!(
        run(&mut token, pkcs11.get_all_slots()).err(),
        Some(Error::Pkcs11(RvError::CryptokiNotInitialised))
    );
    assert_eq!(run(&mut token, pkcs11.initialize(CInitializeArgs::NoThreads)), Ok(()));
    assert_eq!(
        run(&mut token, pkcs11.initialize(CInitializeArgs::NoThreads)),
        Err(Error::Pkcs11(RvError::CryptokiAlreadyInitialised))
    );
    assert_eq!(run(&mut token, pkcs11.finalize()), Ok(()));
    assert_eq!(
        run(&mut token, pkcs11.finalize()),
        Err(Error::Pkcs11(RvError::CryptokiNotInitialised))
    );
}

#[test]
fn a_wrong_pin_fails_the_login() {
    let mut token = Token::at("/usr/local/lib/softhsm/libsofthsm2.so");
    let pkcs11 = Pkcs11::new(FunctionList::uniform(true));
    run(&mut token, pkcs11.initialize(CInitializeArgs::OsThreads)).unwrap();
    let slot = run(&mut token, pkcs11.get_slots_with_token()).unwrap().remove(0);
    let session = run(&mut token, pkcs11.open_session_no_callback(&slot, Flags::new())).unwrap();
    assert_eq!(
        run(&mut token, session.login(UserType::User, "654321").unwrap()),
        Err(Error::Pkcs11(RvError::GeneralError))
    );
    assert!(!token.logged_in);
    assert_eq!(run(&mut token, session.login(UserType::User, "123456").unwrap()), Ok(()));
    assert!(token.logged_in);
}

#[test]
fn nothing_reaches_a_module_whose_function_is_missing() {
    let mut token = Token::at("/usr/local/lib/softhsm/libsofthsm2.so");
    let full = Pkcs11::new(FunctionList::uniform(true));
    ready(&mut token, &full);
    let slot = run(&mut token, full.get_slots_with_token()).unwrap().remove(0);
    let session = run(&mut token, full.open_session_no_callback(&slot, Flags::new())).unwrap();
    let key = run(&mut token, full.create_object(&session, &[Attribute::Token(1)]).unwrap()).unwrap();

    let empty = Pkcs11::new(FunctionList::uniform(false));
    let calls = token.calls.len();
    assert_eq!(run(&mut token, empty.finalize()), Err(Error::NullFunctionPointer));
    assert_eq!(run(&mut token, empty.get_all_slots()).err(), Some(Error::NullFunctionPointer));
    assert_eq!(
        run(&mut token, empty.sign(&session, &Mechanism::RsaPkcs, key, &[1])),
        Err(Error::NullFunctionPointer)
    );
    assert_eq!(
        run(&mut token, empty.find_objects(&session, &[]).unwrap()),
        Err(Error::NullFunctionPointer)
    );
    assert_eq!(
        run(&mut token, empty.destroy_object(&session, key)),
        Err(Error::NullFunctionPointer)
    );
    assert_eq!(token.calls.len(), calls);

    let mut list = FunctionList::uniform(true);
    list.c_sign = false;
    let partial = Pkcs11::new(list);
    assert_eq!(
        run(&mut token, partial.sign(&session, &Mechanism::RsaPkcs, key, &[1])),
        Err(Error::NullFunctionPointer)
    );
    assert_eq!(token.calls.len(), calls + 1);
    assert_eq!(token.calls.last(), Some(&Function::SignInit));
}

#[test]
fn a_search_finds_twenty_three_objects_in_four_batches() {
    let mut token = Token::at("/usr/local/lib/softhsm/libsofthsm2.so");
    let pkcs11 = Pkcs11::new(FunctionList::uniform(true));
    ready(&mut token, &pkcs11);
    let slot = run(&mut token, pkcs11.get_slots_with_token()).unwrap().remove(0);
    let session = run(&mut token, pkcs11.open_session_no_callback(&slot, Flags::new())).unwrap();
    let wanted = vec![Attribute::Label(b"wanted".to_vec())];
    let other = vec![Attribute::Label(b"other".to_vec())];
    let mut created = Vec::new();
    for i in 0..30 {
        let template = if i % 4 == 3 { &other } else { &wanted };
        let object = run(&mut token, pkcs11.create_object(&session, template).unwrap()).unwrap();
        if i % 4 != 3 {
            created.push(object);
        }
    }
    assert_eq!(created.len(), 23);
    let found = run(&mut token, pkcs11.find_objects(&session, &wanted).unwrap()).unwrap();
    assert_eq!(found, created);
    assert_eq!(token.count(Function::FindObjectsInit), 1);
    assert_eq!(token.count(Function::FindObjects), 4);
    assert_eq!(token.count(Function::FindObjectsFinal), 1);
}

#[test]
fn the_value_of_a_sensitive_attribute_cannot_be_had() {
    let mut token = Token::at("/usr/local/lib/softhsm/libsofthsm2.so");
    let pkcs11 = Pkcs11::new(FunctionList::uniform(true));
    ready(&mut token, &pkcs11);
    let slot = run(&mut token, pkcs11.get_slots_with_token()).unwrap().remove(0);
    let session = run(&mut token, pkcs11.open_session_no_callback(&slot, Flags::new())).unwrap();
    let mechanism = Mechanism::RsaPkcsKeyPairGen;
    let (public, private) = run(
        &mut token,
        pkcs11.generate_key_pair(&session, &mechanism, &[Attribute::ModulusBits(1024)], &[]).unwrap(),
    )
    .unwrap();
    assert_eq!(
        run(
            &mut token,
            pkcs11.get_attribute_info(
                &session,
                private,
                &[AttributeType::Value, AttributeType::Class, AttributeType::Label],
            ),
        ),
        Ok(vec![AttributeInfo::Unavailable, AttributeInfo::Available(8), AttributeInfo::Unavailable])
    );
    assert_eq!(
        run(&mut token, pkcs11.get_attribute_info(&session, public, &[AttributeType::Modulus])),
        Ok(vec![AttributeInfo::Available(128)])
    );
    let calls = token.count(Function::GetAttributeValue);
    assert_eq!(
        run(
            &mut token,
            pkcs11.get_attribute_value(&session, private, &[Attribute::Value(vec![0; 16])]).unwrap(),
        ),
        Err(Error::BufferTooSmall {
            attribute_type: CKA_VALUE,
            expected: CK_UNAVAILABLE_INFORMATION,
            given: 16
        })
    );
    assert_eq!(token.count(Function::GetAttributeValue), calls + 1);
    assert_eq!(
        run(
            &mut token,
            pkcs11
                .get_attribute_value(
                    &session,
                    public,
                    &[Attribute::Class(0), Attribute::Modulus(vec![0; 128]), Attribute::ModulusBits(0)],
                )
                .unwrap(),
        ),
        Ok(vec![
            Attribute::Class(CKO_PUBLIC_KEY),
            Attribute::Modulus(vec![public_pair(&token, 128)[0]; 128]),
            Attribute::ModulusBits(1024),
        ])
    );
    assert_eq!(
        run(
            &mut token,
            pkcs11.get_attribute_value(&session, public, &[Attribute::Modulus(vec![0; 127])]).unwrap(),
        ),
        Err(Error::BufferTooSmall { attribute_type: CKA_MODULUS, expected: 128, given: 127 })
    );
    assert_eq!(
        run(
            &mut token,
            pkcs11.get_attribute_value(&session, public, &[Attribute::Modulus(vec![0; 129])]).unwrap(),
        ),
        Err(Error::BufferTooBig { attribute_type: CKA_MODULUS, expected: 128, given: 129 })
    );
}

fn public_pair(token: &Token, len: usize) -> Vec<u8> {
    let key = token
        .objects
        .iter()
        .find(|object| object.attributes.iter().any(|(type_, _)| *type_ == CKA_MODULUS))
        .expect("a public key");
    vec![key.pair; len]
}
