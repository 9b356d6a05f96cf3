use tiger::Tiger;

fn hex(bytes: &[u8]) -> String {
    bytes.iter().map(|b| format!("{:02X}", b)).collect()
}

fn digest(data: &[u8]) -> String {
    let mut engine = Tiger::new();
    engine.input(data);
    hex(&engine.fixed_result())
}

#[test]
fn empty_input() {
    assert_eq!(digest(b""), "4441BE75F6018773C206C22745374B924AA8313FEF919F41");
}

#[test]
fn single_byte() {
    assert_eq!(digest(b"a"), "67E6AE8E9E968999F70A23E72AEAA9251CBC7C78A7916636");
}

#[test]
fn three_bytes() {
    assert_eq!(digest(b"abc"), "F68D7BC5AF4B43A06E048D7829560D4A9415658BB0B1F3BF");
}

#[test]
fn message_digest() {
    assert_eq!(
        digest(b"message digest"),
        "E29419A1B5FA259DE8005E7DE75078EA81A542EF2552462D"
    );
}

#[test]
fn lower_case_alphabet() {
    assert_eq!(
        digest(b"abcdefghijklmnopqrstuvwxyz"),
        "F5B6B6A78C405C8547E91CD8624CB8BE83FC804A474488FD"
    );
}

#[test]
fn overlapping_alphabet_runs() {
    // 56 bytes: the padding no longer fits and spills into a second block.
    assert_eq!(
        digest(b"abcdbcdecdefdefgefghfghighijhijkijkljklmklmnlmnomnopnopq"),
        "A6737F3997E8FBB63D20D2DF88F86376B5FE2D5CE36646A9"
    );
}

#[test]
fn mixed_case_alphanumerics() {
    assert_eq!(
        digest(b"ABCDEFGHIJKLMNOPQRSTUVWXYZabcdefghijklmnopqrstuvwxyz0123456789"),
        "EA9AB6228CEE7B51B77544FCA6066C8CBB5BBAE6319505CD"
    );
}

#[test]
fn eighty_digits() {
    assert_eq!(
        digest(b"12345678901234567890123456789012345678901234567890123456789012345678901234567890"),
        "D85278115329EBAA0EEC85ECDC5396FDA8AA3A5820942FFF"
    );
}

#[test]
fn exactly_one_block() {
    let data = b"Tiger - A Fast New Hash Function, by Ross Anderson and Eli Biham";
    assert_eq!(data.len(), 64);
    assert_eq!(digest(data), "F05589B5B897C0F81F16266F79E3625E0D4D4A4E343E5EF9");
}

#[test]
fn tiger_1million_a() {
    let chunk = [b'a'; 1000];
    let mut engine = Tiger::new();
    for _ in 0..1000 {
        engine.input(&chunk);
    }
    assert_eq!(
        hex(&engine.fixed_result()),
        "E068281F060F551628CC5715B9D0226796914D45F7717CF4"
    );
}

#[test]
fn million_a_in_odd_chunks() {
    let data = vec![b'a'; 1_000_000];
    let mut engine = Tiger::new();
    let mut pos = 0;
    let mut step = 1;
    while pos < data.len() {
        let end = usize::min(pos + step, data.len());
        engine.input(&data[pos..end]);
        pos = end;
        step = step % 97 + 13;
    }
    assert_eq!(
        hex(&engine.fixed_result()),
        "E068281F060F551628CC5715B9D0226796914D45F7717CF4"
    );
}

#[test]
fn same_input_same_digest() {
    let data = b"The quick brown fox jumps over the lazy dog";
    assert_eq!(digest(data), digest(data));
}

#[test]
fn chunking_does_not_change_digest() {
    let data: Vec<u8> = (0..300u32).map(|i| (i * 7 + 3) as u8).collect();
    let whole = digest(&data);
    for split in [0usize, 1, 55, 56, 63, 64, 65, 127, 128, 200, 300] {
        let mut engine = Tiger::new();
        engine.input(&data[..split]);
        engine.input(&[]);
        engine.input(&data[split..]);
        assert_eq!(hex(&engine.fixed_result()), whole);
    }
    let mut engine = Tiger::new();
    for b in &data {
        engine.input(std::slice::from_ref(b));
    }
    assert_eq!(hex(&engine.fixed_result()), whole);
}

#[test]
fn empty_and_one_byte_differ() {
    assert_ne!(digest(b""), digest(b"\x00"));
    assert_ne!(digest(b"a"), digest(b"b"));
    assert_ne!(digest(b"a"), digest(b"aa"));
}

#[test]
fn reset_gives_fresh_engine() {
    let mut engine = Tiger::new();
    engine.input(b"some earlier input that spans more than one block of sixty-four bytes");
    engine.reset();
    engine.input(b"abc");
    assert_eq!(
        hex(&engine.fixed_result()),
        "F68D7BC5AF4B43A06E048D7829560D4A9415658BB0B1F3BF"
    );
}

#[test]
fn default_is_fresh_engine() {
    let mut engine = Tiger::default();
    engine.input(b"a");
    assert_eq!(
        hex(&engine.fixed_result()),
        "67E6AE8E9E968999F70A23E72AEAA9251CBC7C78A7916636"
    );
}

#[test]
fn state_starts_at_initial_value() {
    let st = tiger::compress::TigerState::new();
    assert_eq!(
        st.get(),
        (0x0123456789ABCDEF, 0xFEDCBA9876543210, 0xF096A5B4C3B2E187)
    );
}

#[test]
fn one_block_compression() {
    // The padded empty message is one block: 0x80, zeros, then a zero length.
    let mut block = [0u8; 64];
    block[0] = 0x80;
    let mut st = tiger::compress::TigerState::new();
    st.process_block(&block);
    let (a, b, c) = st.get();
    let mut out = Vec::new();
    out.extend_from_slice(&a.to_le_bytes());
    out.extend_from_slice(&b.to_le_bytes());
    out.extend_from_slice(&c.to_le_bytes());
    assert_eq!(hex(&out), "4441BE75F6018773C206C22745374B924AA8313FEF919F41");
}

#[test]
fn one_shot_digest_matches_engine() {
    assert_eq!(
        hex(&Tiger::digest(b"abc")),
        "F68D7BC5AF4B43A06E048D7829560D4A9415658BB0B1F3BF"
    );
    assert_eq!(hex(&Tiger::digest(b"message digest")), digest(b"message digest"));
}
