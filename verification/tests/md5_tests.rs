use groovy_ssl::md5::{hash, md5, MessagePreprocessor};

#[test]
fn empty_string() {
    assert_eq!(
        hash(b"").to_string(),
        String::from("d41d8cd98f00b204e9800998ecf8427e")
    );
}

#[test]
fn string1() {
    assert_eq!(
        hash(b"a").to_string(),
        String::from("0cc175b9c0f1b6a831c399e269772661")
    );
}

#[test]
fn string2() {
    assert_eq!(
        hash(b"abc").to_string(),
        String::from("900150983cd24fb0d6963f7d28e17f72")
    );
}

#[test]
fn string3() {
    assert_eq!(
        hash(b"message digest").to_string(),
        String::from("f96b697d7cb7938d525a2f31aaf161d0")
    );
}

#[test]
fn string4() {
    assert_eq!(
        hash(b"abcdefghijklmnopqrstuvwxyz").to_string(),
        String::from("c3fcd3d76192e4007dfb496cca67e13b")
    );
}

#[test]
fn string5() {
    assert_eq!(
        hash(b"ABCDEFGHIJKLMNOPQRSTUVWXYZabcdefghijklmnopqrstuvwxyz0123456789").to_string(),
        String::from("d174ab98d277d9f5a5611c2c9f419d9f")
    );
}

#[test]
fn string6() {
    assert_eq!(
        hash(b"12345678901234567890123456789012345678901234567890123456789012345678901234567890")
            .to_string(),
        String::from("57edf4a22be3c955ac49da2e2107b67a")
    );
}

#[test]
fn md5_bytes_match_hash() {
    let bytes = md5(b"abc");
    let from_hash = hash(b"abc").to_bytes();
    assert_eq!(bytes, from_hash);
    assert_eq!(
        bytes,
        [
            0x90, 0x01, 0x50, 0x98, 0x3c, 0xd2, 0x4f, 0xb0, 0xd6, 0x96, 0x3f, 0x7d, 0x28, 0xe1,
            0x7f, 0x72
        ]
    );
}

#[test]
fn digest_is_sixteen_bytes() {
    assert_eq!(md5(b"").len(), 16);
    assert_eq!(hash(b"any input at all").to_bytes().len(), 16);
}

#[test]
fn hex_rendering_shape() {
    let s = hash(b"asdf").to_string();
    assert_eq!(s.len(), 32);
    assert!(s.chars().all(|c| c.is_ascii_hexdigit() && !c.is_ascii_uppercase()));
    assert_eq!(s, String::from("912ec803b2ce49e4a541068d495ab570"));
}

#[test]
fn deterministic_on_equal_input() {
    let first = md5(b"determinism check");
    let second = md5(b"determinism check");
    assert_eq!(first, second);
    assert_eq!(
        hash(b"determinism check").to_string(),
        hash(b"determinism check").to_string()
    );
}

#[test]
fn boundary_len_55_single_block() {
    let input = [b'a'; 55];
    assert_eq!(
        hash(&input).to_string(),
        String::from("ef1772b6dff9a122358552954ad0df65")
    );
    let mut pre = MessagePreprocessor::new(&input);
    let mut blocks: u32 = 0;
    while pre.next().is_some() {
        blocks += 1;
    }
    assert_eq!(blocks, 1);
}

#[test]
fn boundary_len_56_extra_block() {
    let input = [b'a'; 56];
    assert_eq!(
        hash(&input).to_string(),
        String::from("3b0c8ac703f828b04c6c197006d17218")
    );
    let mut pre = MessagePreprocessor::new(&input);
    let mut blocks: u32 = 0;
    while pre.next().is_some() {
        blocks += 1;
    }
    assert_eq!(blocks, 2);
}

#[test]
fn boundary_len_57_extra_block() {
    let input = [b'a'; 57];
    assert_eq!(
        hash(&input).to_string(),
        String::from("652b906d60af96844ebd21b674f35e93")
    );
    let mut pre = MessagePreprocessor::new(&input);
    let mut blocks: u32 = 0;
    while pre.next().is_some() {
        blocks += 1;
    }
    assert_eq!(blocks, 2);
}

#[test]
fn empty_message_still_one_block() {
    let mut pre = MessagePreprocessor::new(b"");
    assert!(pre.next().is_some());
    assert!(pre.next().is_none());
}

#[test]
fn avalanche_on_one_flipped_bit() {
    // "abc" and "abb" differ in exactly one input bit.
    let x = md5(b"abc");
    let y = md5(b"abb");
    let mut differing_bits: u32 = 0;
    for i in 0..16 {
        differing_bits += (x[i] ^ y[i]).count_ones();
    }
    // A large fraction of the 128 output bits changes; exactly 65 for
    // this pair, and we only rely on a comfortable qualitative margin.
    assert!(differing_bits >= 40);
}

#[test]
fn two_block_message() {
    let input = [b'b'; 119];
    assert_eq!(
        hash(&input).to_string(),
        String::from("b4e5105d0b3acae7feda8ec2acbdad57")
    );
    let input = [b'b'; 120];
    assert_eq!(
        hash(&input).to_string(),
        String::from("c8eb298682a7890e3136465d34d5ec25")
    );
}
