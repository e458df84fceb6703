//! The options and modes that every context starts from.
use vstd::prelude::*;

verus! {

/// The numeric values that the linked OpenSSL has for the options that are named here.
#[derive(Clone, Copy, Debug, PartialEq, Eq)]
pub struct OptionBits {
    pub all: u64,
    pub netscape_reuse_cipher_change_bug: u64,
    pub dont_insert_empty_fragments: u64,
    pub no_ticket: u64,
    pub no_compression: u64,
    pub no_sslv2: u64,
    pub no_sslv3: u64,
    pub single_dh_use: u64,
    pub single_ecdh_use: u64,
    pub cipher_server_preference: u64,
}

/// The numeric values that the linked OpenSSL has for the modes that are named here.
#[derive(Clone, Copy, Debug, PartialEq, Eq)]
pub struct ModeBits {
    pub auto_retry: u64,
    pub accept_moving_write_buffer: u64,
    pub enable_partial_write: u64,
    pub release_buffers: u64,
}

/// The first OpenSSL version number, that of 1.0.1h, on which buffers are released.
pub const RELEASE_BUFFERS_SINCE: i64 = 0x1000108f;

/// Whether bit `i` of a word is set.
pub open spec fn has_bit(word: u64, i: u64) -> bool {
    (word >> i) & 1 == 1
}

/// The options that are taken out of those of `SSL_OP_ALL`.
pub open spec fn removed_options(bits: OptionBits) -> u64 {
    bits.netscape_reuse_cipher_change_bug | bits.dont_insert_empty_fragments
}

/// The options that are set whatever `SSL_OP_ALL` holds.
pub open spec fn forced_options(bits: OptionBits) -> u64 {
    bits.no_ticket | bits.no_compression | bits.no_sslv2 | bits.no_sslv3 | bits.single_dh_use
        | bits.single_ecdh_use | bits.cipher_server_preference
}

/// The options of a new context.
pub open spec fn options_of(bits: OptionBits) -> u64 {
    (bits.all & !removed_options(bits)) | forced_options(bits)
}

/// The modes of a new context.
pub open spec fn modes_of(bits: ModeBits, number: i64) -> u64 {
    let base = bits.auto_retry | bits.accept_moving_write_buffer | bits.enable_partial_write;
    if number >= RELEASE_BUFFERS_SINCE {
        base | bits.release_buffers
    } else {
        base
    }
}

/// The options of a new context.
pub fn default_options(bits: &OptionBits) -> (options: u64)
    ensures
        options == options_of(*bits),
{
    let mut opts: u64 = bits.all;
    opts = opts & !bits.netscape_reuse_cipher_change_bug;
    opts = opts & !bits.dont_insert_empty_fragments;
    opts = opts | bits.no_ticket;
    opts = opts | bits.no_compression;
    opts = opts | bits.no_sslv2;
    opts = opts | bits.no_sslv3;
    opts = opts | bits.single_dh_use;
    opts = opts | bits.single_ecdh_use;
    opts = opts | bits.cipher_server_preference;
    proof {
        let (all, a, b) = (
            bits.all,
            bits.netscape_reuse_cipher_change_bug,
            bits.dont_insert_empty_fragments,
        );
        let (c, d, e, f) = (bits.no_ticket, bits.no_compression, bits.no_sslv2, bits.no_sslv3);
        let (g, h, i) = (bits.single_dh_use, bits.single_ecdh_use, bits.cipher_server_preference);
        assert(((((((((all & !a) & !b) | c) | d) | e) | f) | g) | h) | i == (all & !(a | b)) | (c
            | d | e | f | g | h | i)) by (bit_vector);
    }
    opts
}

/// The modes of a new context on an OpenSSL of the given version number.
///
/// Releasing buffers saves memory, but caused vulnerabilities in OpenSSL before 1.0.1h.
pub fn default_modes(bits: &ModeBits, number: i64) -> (modes: u64)
    ensures
        modes == modes_of(*bits, number),
{
    let mut mode: u64 = bits.auto_retry | bits.accept_moving_write_buffer
        | bits.enable_partial_write;
    if number >= RELEASE_BUFFERS_SINCE {
        mode = mode | bits.release_buffers;
    }
    mode
}

/// Bit by bit, an option is set exactly if it is forced, or is one of `SSL_OP_ALL` and not removed.
pub proof fn law_options_bit_by_bit(bits: OptionBits, i: u64)
    requires
        i < 64,
    ensures
        has_bit(options_of(bits), i) <==> has_bit(forced_options(bits), i) || (has_bit(
            bits.all,
            i,
        ) && !has_bit(removed_options(bits), i)),
{
    let (all, removed, forced) = (bits.all, removed_options(bits), forced_options(bits));
    assert((((all & !removed) | forced) >> i) & 1 == 1 <==> (forced >> i) & 1 == 1 || ((all >> i)
        & 1 == 1 && !((removed >> i) & 1 == 1))) by (bit_vector)
        requires
            i < 64,
    ;
}

/// SSLv2 and SSLv3, compression and session tickets are switched off, ephemeral keys are used once
/// and the server's cipher preference is followed, whatever `SSL_OP_ALL` holds.
pub proof fn law_protective_options_are_set(bits: OptionBits)
    ensures
        options_of(bits) & bits.no_ticket == bits.no_ticket,
        options_of(bits) & bits.no_compression == bits.no_compression,
        options_of(bits) & bits.no_sslv2 == bits.no_sslv2,
        options_of(bits) & bits.no_sslv3 == bits.no_sslv3,
        options_of(bits) & bits.single_dh_use == bits.single_dh_use,
        options_of(bits) & bits.single_ecdh_use == bits.single_ecdh_use,
        options_of(bits) & bits.cipher_server_preference == bits.cipher_server_preference,
{
    let base = bits.all & !removed_options(bits);
    let (c, d, e, f) = (bits.no_ticket, bits.no_compression, bits.no_sslv2, bits.no_sslv3);
    let (g, h, i) = (bits.single_dh_use, bits.single_ecdh_use, bits.cipher_server_preference);
    assert({
        let w = base | (c | d | e | f | g | h | i);
        w & c == c && w & d == d && w & e == e && w & f == f && w & g == g && w & h == h && w & i
            == i
    }) by (bit_vector);
}

/// Buffers are released exactly from OpenSSL 1.0.1h on, given that the mode has a bit of its own.
pub proof fn law_buffers_are_released_since(bits: ModeBits, number: i64)
    requires
        bits.release_buffers != 0,
        bits.release_buffers & (bits.auto_retry | bits.accept_moving_write_buffer
            | bits.enable_partial_write) == 0,
    ensures
        modes_of(bits, number) & bits.release_buffers == bits.release_buffers <==> number
            >= RELEASE_BUFFERS_SINCE,
{
    let base = bits.auto_retry | bits.accept_moving_write_buffer | bits.enable_partial_write;
    let r = bits.release_buffers;
    assert((base | r) & r == r) by (bit_vector);
    assert(r & base == 0 ==> base & r == 0) by (bit_vector);
}

/// Bit by bit, an option of a new context is set exactly if it is one of those that are switched on,
/// or one of `SSL_OP_ALL` that is neither of the two that are taken out.
pub proof fn law_options_by_name(bits: OptionBits, i: u64)
    requires
        i < 64,
    ensures
        (options_of(bits) >> i) & 1 == 1 <==> {
            ||| (bits.no_ticket >> i) & 1 == 1
            ||| (bits.no_compression >> i) & 1 == 1
            ||| (bits.no_sslv2 >> i) & 1 == 1
            ||| (bits.no_sslv3 >> i) & 1 == 1
            ||| (bits.single_dh_use >> i) & 1 == 1
            ||| (bits.single_ecdh_use >> i) & 1 == 1
            ||| (bits.cipher_server_preference >> i) & 1 == 1
            ||| {
                &&& (bits.all >> i) & 1 == 1
                &&& (bits.netscape_reuse_cipher_change_bug >> i) & 1 != 1
                &&& (bits.dont_insert_empty_fragments >> i) & 1 != 1
            }
        },
{
    let (all, a, b) = (
        bits.all,
        bits.netscape_reuse_cipher_change_bug,
        bits.dont_insert_empty_fragments,
    );
    let (c, d, e, f) = (bits.no_ticket, bits.no_compression, bits.no_sslv2, bits.no_sslv3);
    let (g, h, k) = (bits.single_dh_use, bits.single_ecdh_use, bits.cipher_server_preference);
    assert((((all & !(a | b)) | (c | d | e | f | g | h | k)) >> i) & 1 == 1 <==> ((c >> i) & 1 == 1
        || (d >> i) & 1 == 1 || (e >> i) & 1 == 1 || (f >> i) & 1 == 1 || (g >> i) & 1 == 1 || (h
        >> i) & 1 == 1 || (k >> i) & 1 == 1 || ((all >> i) & 1 == 1 && (a >> i) & 1 != 1 && (b
        >> i) & 1 != 1))) by (bit_vector)
        requires
            i < 64,
    ;
}

/// Bit by bit, a mode of a new context is set exactly if it is one of the three that are always on,
/// or that of released buffers and OpenSSL is 1.0.1h (0x1000108f) or later.
pub proof fn law_modes_by_name(bits: ModeBits, number: i64, i: u64)
    requires
        i < 64,
    ensures
        (modes_of(bits, number) >> i) & 1 == 1 <==> {
            ||| (bits.auto_retry >> i) & 1 == 1
            ||| (bits.accept_moving_write_buffer >> i) & 1 == 1
            ||| (bits.enable_partial_write >> i) & 1 == 1
            ||| number >= 0x1000108f && (bits.release_buffers >> i) & 1 == 1
        },
{
    let (a, b, c, r) = (
        bits.auto_retry,
        bits.accept_moving_write_buffer,
        bits.enable_partial_write,
        bits.release_buffers,
    );
    assert(((a | b | c) >> i) & 1 == 1 <==> ((a >> i) & 1 == 1 || (b >> i) & 1 == 1 || (c >> i) & 1
        == 1)) by (bit_vector)
        requires
            i < 64,
    ;
    assert(((a | b | c | r) >> i) & 1 == 1 <==> ((a >> i) & 1 == 1 || (b >> i) & 1 == 1 || (c >> i)
        & 1 == 1 || (r >> i) & 1 == 1)) by (bit_vector)
        requires
            i < 64,
    ;
}

} // verus!
