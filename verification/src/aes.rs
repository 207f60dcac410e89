//! Interface to the AES peripheral.
//!
//! Note that the AES peripheral is only available on some MCUs in the L0/L1/L2
//! families. Check the datasheet for more information.
//!
//! See STM32L0x2 reference manual, chapter 18.
use vstd::prelude::*;

use crate::bits::{bit_set, lemma_low_masks, read_field, with_field, write_field};
use crate::dma;

verus! {

/// Bit of `EN` (enable) in `AES_CR`.
pub const CR_EN: u32 = 0;

/// First bit of the two-bit `DATATYPE` field in `AES_CR`.
pub const CR_DATATYPE: u32 = 1;

/// First bit of the two-bit `MODE` field (operating mode) in `AES_CR`.
pub const CR_MODE: u32 = 3;

/// First bit of the two-bit `CHMOD` field (chaining mode) in `AES_CR`.
pub const CR_CHMOD: u32 = 5;

/// Bit of `CCFC` (computation complete flag clear) in `AES_CR`.
pub const CR_CCFC: u32 = 7;

/// Bit of `ERRC` (error clear) in `AES_CR`.
pub const CR_ERRC: u32 = 8;

/// Bit of `CCFIE` (computation complete interrupt enable) in `AES_CR`.
pub const CR_CCFIE: u32 = 9;

/// Bit of `ERRIE` (error interrupt enable) in `AES_CR`.
pub const CR_ERRIE: u32 = 10;

/// Bit of `DMAINEN` (DMA input enable) in `AES_CR`.
pub const CR_DMAINEN: u32 = 11;

/// Bit of `DMAOUTEN` (DMA output enable) in `AES_CR`.
pub const CR_DMAOUTEN: u32 = 12;

/// Bit of `CCF` (computation complete flag) in `AES_SR`.
pub const SR_CCF: u32 = 0;

/// Bit of `WRERR` (write error flag) in `AES_SR`.
pub const SR_WRERR: u32 = 2;

/// The `DATATYPE` value for a stream of bytes.
pub const DATATYPE_BYTES: u32 = 0b10;

/// The `MODE` value that derives the decryption key.
pub const MODE_KEY_DERIVATION: u32 = 0b01;

/// Address of the data input register `AES_DINR`.
pub const DINR_ADDRESS: u32 = 0x4002_6008;

/// Address of the data output register `AES_DOUTR`.
pub const DOUTR_ADDRESS: u32 = 0x4002_600C;

/// A 128-bit block
///
/// The AES peripheral processes 128 bits at a time, so this represents one unit
/// of processing.
pub type Block = [u8; 16];

#[derive(Debug, Clone, Copy, PartialEq, Eq, Structural)]
pub enum Error {
    /// AES peripheral is busy
    Busy,
}

/// The little-endian word of four bytes.
pub open spec fn word_le(b0: u8, b1: u8, b2: u8, b3: u8) -> u32 {
    (b0 as u32) | ((b1 as u32) << 8u32) | ((b2 as u32) << 16u32) | ((b3 as u32) << 24u32)
}

/// Byte `k` (0 the least significant) of a word.
pub open spec fn byte_le(w: u32, k: u32) -> u8 {
    ((w >> (8 * k) as u32) & 0xff) as u8
}

/// The little-endian word of the `i`-th four bytes of a block.
pub open spec fn chunk_word(b: Seq<u8>, i: int) -> u32 {
    word_le(b[4 * i], b[4 * i + 1], b[4 * i + 2], b[4 * i + 3])
}

/// The words that carry a block through the data registers, in the order in
/// which they pass: the last four bytes first.
pub open spec fn words_of_block(b: Seq<u8>) -> Seq<u32> {
    Seq::new(4, |k: int| chunk_word(b, 3 - k))
}

/// The block that words read from the data register make, in the order in
/// which they were read: the first word gives the last four bytes.
pub open spec fn block_of_words(w: Seq<u32>) -> Seq<u8> {
    Seq::new(16, |n: int| byte_le(w[3 - n / 4], (n % 4) as u32))
}

/// Bytes and their little-endian word determine each other.
proof fn lemma_word_bytes(b0: u8, b1: u8, b2: u8, b3: u8, w: u32)
    by (bit_vector)
    ensures
        ((word_le(b0, b1, b2, b3) >> 0u32) & 0xff) as u8 == b0,
        ((word_le(b0, b1, b2, b3) >> 8u32) & 0xff) as u8 == b1,
        ((word_le(b0, b1, b2, b3) >> 16u32) & 0xff) as u8 == b2,
        ((word_le(b0, b1, b2, b3) >> 24u32) & 0xff) as u8 == b3,
        word_le(
            ((w >> 0u32) & 0xff) as u8,
            ((w >> 8u32) & 0xff) as u8,
            ((w >> 16u32) & 0xff) as u8,
            ((w >> 24u32) & 0xff) as u8,
        ) == w,
{
}

/// A block that passes through the data registers unchanged comes back as it
/// was: the words a block is written as, read back in the same order, give the
/// block again.
pub proof fn lemma_block_round_trip(b: Seq<u8>)
    requires
        b.len() == 16,
    ensures
        block_of_words(words_of_block(b)) == b,
{
    let w = words_of_block(b);
    assert forall|n: int| 0 <= n < 16 implies #[trigger] block_of_words(w)[n] == b[n] by {
        let i = n / 4;
        let j = n % 4;
        assert(3 - (3 - i) == i);
        lemma_word_bytes(b[4 * i], b[4 * i + 1], b[4 * i + 2], b[4 * i + 3], 0);
        assert(n == 4 * i + j);
    }
    assert(block_of_words(w) =~= b);
}

/// Words read as a block and written again pass unchanged: the words of the
/// block that words make are those words.
pub proof fn lemma_words_round_trip(w: Seq<u32>)
    requires
        w.len() == 4,
    ensures
        words_of_block(block_of_words(w)) == w,
{
    let b = block_of_words(w);
    assert forall|k: int| 0 <= k < 4 implies #[trigger] words_of_block(b)[k] == w[k] by {
        let i = 3 - k;
        assert((4 * i) / 4 == i && (4 * i + 1) / 4 == i && (4 * i + 2) / 4 == i && (4 * i + 3) / 4
            == i);
        assert((4 * i) % 4 == 0 && (4 * i + 1) % 4 == 1 && (4 * i + 2) % 4 == 2 && (4 * i + 3) % 4
            == 3);
        lemma_word_bytes(0, 0, 0, 0, w[k]);
    }
    assert(words_of_block(b) =~= w);
}

/// The little-endian word of the `i`-th four bytes of `block`.
fn block_word(block: &Block, i: usize) -> (r: u32)
    requires
        i < 4,
    ensures
        r == chunk_word(block@, i as int),
{
    let b0 = block[4 * i];
    let b1 = block[4 * i + 1];
    let b2 = block[4 * i + 2];
    let b3 = block[4 * i + 3];
    (b0 as u32) | ((b1 as u32) << 8u32) | ((b2 as u32) << 16u32) | ((b3 as u32) << 24u32)
}

/// Byte `k` of `w`.
fn word_byte(w: u32, k: u32) -> (r: u8)
    requires
        k < 4,
    ensures
        r == byte_le(w, k),
{
    ((w >> (8 * k)) & 0xff) as u8
}

/// `cr` with the chaining mode and the operating mode selected.
pub open spec fn select_cr(cr: u32, chmod: u32, mode: u32) -> u32 {
    with_field(with_field(cr, CR_CHMOD, 2, chmod), CR_MODE, 2, mode)
}

/// What a chaining mode asks before the peripheral is enabled.
pub struct Preparation {
    /// The decryption key is derived from the key first.
    pub derive_key: bool,
    /// The values of `IVR3`, `IVR2`, `IVR1` and `IVR0`, in this order.
    pub init_vector: Option<[u32; 4]>,
}

/// Implemented for all chaining modes
///
/// This is mostly an internal trait. The user won't typically need to use or
/// implement this, except to call the various static methods that create a
/// mode.
pub trait Mode {
    /// The value of the `CHMOD` field.
    spec fn spec_chmod(&self) -> u32;

    /// The value of the `MODE` field.
    spec fn spec_mode(&self) -> u32;

    /// Whether the decryption key is derived before the peripheral runs.
    spec fn spec_derives_key(&self) -> bool;

    /// The initialisation vector registers, `IVR3` first, if they are written.
    spec fn spec_init_vector(&self) -> Option<Seq<u32>>;

    /// What is done before the peripheral is enabled.
    fn prepare(&self) -> (r: Preparation)
        ensures
            r.derive_key == self.spec_derives_key(),
            match r.init_vector {
                Some(v) => self.spec_init_vector() == Some(v@),
                None => self.spec_init_vector() is None,
            },
    ;

    /// `cr` with this mode selected.
    fn select(&self, cr: u32) -> (r: u32)
        ensures
            r == select_cr(cr, self.spec_chmod(), self.spec_mode()),
            self.spec_chmod() <= 3,
            self.spec_mode() <= 3,
    ;
}

/// Used to identify encryption mode
pub struct Encrypt;

/// Used to identify decryption mode
pub struct Decrypt;

/// The ECB (electronic code book) chaining mode
///
/// Can be passed [`AES::enable`], to start encrypting or decrypting using ECB
/// mode. `Mode` must be either [`Encrypt`] or [`Decrypt`].
pub struct ECB<M>(M);

/// The CBC (cipher block chaining) chaining mode
///
/// Can be passed [`AES::enable`], to start encrypting or decrypting using CBC
/// mode. `Mode` must be either [`Encrypt`] or [`Decrypt`].
pub struct CBC<M> {
    _mode: M,
    init_vector: [u32; 4],
}

/// The CTR (counter) chaining mode
///
/// Can be passed [`AES::enable`], to start encrypting or decrypting using CTR
/// mode. In CTR mode, encryption and decryption are technically identical, so
/// further qualification is not required.
pub struct CTR {
    init_vector: [u32; 3],
}

impl<M> CBC<M> {
    /// The initialisation vector.
    pub closed spec fn spec_iv(&self) -> Seq<u32> {
        self.init_vector@
    }
}

impl CTR {
    /// The initialisation vector.
    pub closed spec fn spec_iv(&self) -> Seq<u32> {
        self.init_vector@
    }
}

/// Selects the chaining mode and the operating mode in `cr`.
fn select_modes(cr: u32, chmod: u32, mode: u32) -> (r: u32)
    requires
        chmod <= 3,
        mode <= 3,
    ensures
        r == select_cr(cr, chmod, mode),
{
    proof {
        lemma_low_masks();
    }
    let r = write_field(cr, CR_CHMOD, 2, chmod);
    write_field(r, CR_MODE, 2, mode)
}

impl Mode for ECB<Encrypt> {
    open spec fn spec_chmod(&self) -> u32 {
        0b00
    }

    open spec fn spec_mode(&self) -> u32 {
        0b00
    }

    open spec fn spec_derives_key(&self) -> bool {
        false
    }

    open spec fn spec_init_vector(&self) -> Option<Seq<u32>> {
        None
    }

    fn prepare(&self) -> (r: Preparation) {
        Preparation { derive_key: false, init_vector: None }
    }

    fn select(&self, cr: u32) -> (r: u32) {
        select_modes(cr, 0b00, 0b00)
    }
}

impl Mode for ECB<Decrypt> {
    open spec fn spec_chmod(&self) -> u32 {
        0b00
    }

    open spec fn spec_mode(&self) -> u32 {
        0b10
    }

    open spec fn spec_derives_key(&self) -> bool {
        true
    }

    open spec fn spec_init_vector(&self) -> Option<Seq<u32>> {
        None
    }

    fn prepare(&self) -> (r: Preparation) {
        Preparation { derive_key: true, init_vector: None }
    }

    fn select(&self, cr: u32) -> (r: u32) {
        select_modes(cr, 0b00, 0b10)
    }
}

impl Mode for CBC<Encrypt> {
    open spec fn spec_chmod(&self) -> u32 {
        0b01
    }

    open spec fn spec_mode(&self) -> u32 {
        0b00
    }

    open spec fn spec_derives_key(&self) -> bool {
        false
    }

    open spec fn spec_init_vector(&self) -> Option<Seq<u32>> {
        Some(self.spec_iv())
    }

    fn prepare(&self) -> (r: Preparation) {
        let iv = self.init_vector;
        let r = Preparation { derive_key: false, init_vector: Some([iv[0], iv[1], iv[2], iv[3]]) };
        assert(r.init_vector.unwrap()@ =~= self.spec_iv());
        r
    }

    fn select(&self, cr: u32) -> (r: u32) {
        select_modes(cr, 0b01, 0b00)
    }
}

impl Mode for CBC<Decrypt> {
    open spec fn spec_chmod(&self) -> u32 {
        0b01
    }

    open spec fn spec_mode(&self) -> u32 {
        0b10
    }

    open spec fn spec_derives_key(&self) -> bool {
        true
    }

    open spec fn spec_init_vector(&self) -> Option<Seq<u32>> {
        Some(self.spec_iv())
    }

    fn prepare(&self) -> (r: Preparation) {
        let iv = self.init_vector;
        let r = Preparation { derive_key: true, init_vector: Some([iv[0], iv[1], iv[2], iv[3]]) };
        assert(r.init_vector.unwrap()@ =~= self.spec_iv());
        r
    }

    fn select(&self, cr: u32) -> (r: u32) {
        select_modes(cr, 0b01, 0b10)
    }
}

impl Mode for CTR {
    open spec fn spec_chmod(&self) -> u32 {
        0b10
    }

    open spec fn spec_mode(&self) -> u32 {
        0b00
    }

    open spec fn spec_derives_key(&self) -> bool {
        false
    }

    /// The three words of the vector, then the counter's first value, 1.
    open spec fn spec_init_vector(&self) -> Option<Seq<u32>> {
        Some(self.spec_iv().push(1))
    }

    fn prepare(&self) -> (r: Preparation) {
        let iv = self.init_vector;
        let r = Preparation { derive_key: false, init_vector: Some([iv[0], iv[1], iv[2], 0x0001]) };
        assert(r.init_vector.unwrap()@ =~= self.spec_iv().push(1));
        r
    }

    fn select(&self, cr: u32) -> (r: u32) {
        select_modes(cr, 0b10, 0b00)
    }
}

impl dyn Mode {
    /// Use this with [`AES::enable`] to encrypt using ECB
    pub fn ecb_encrypt() -> (r: ECB<Encrypt>)
        ensures
            r.spec_chmod() == 0 && r.spec_mode() == 0,
    {
        ECB(Encrypt)
    }

    /// Use this with [`AES::enable`] to decrypt using ECB
    pub fn ecb_decrypt() -> (r: ECB<Decrypt>)
        ensures
            r.spec_chmod() == 0 && r.spec_mode() == 0b10,
    {
        ECB(Decrypt)
    }

    /// Use this with [`AES::enable`] to encrypt using CBC
    pub fn cbc_encrypt(init_vector: [u32; 4]) -> (r: CBC<Encrypt>)
        ensures
            r.spec_iv() == init_vector@,
    {
        CBC { _mode: Encrypt, init_vector }
    }

    /// Use this with [`AES::enable`] to decrypt using CBC
    pub fn cbc_decrypt(init_vector: [u32; 4]) -> (r: CBC<Decrypt>)
        ensures
            r.spec_iv() == init_vector@,
    {
        CBC { _mode: Decrypt, init_vector }
    }

    /// Use this with [`AES::enable`] to encrypt or decrypt using CTR
    pub fn ctr(init_vector: [u32; 3]) -> (r: CTR)
        ensures
            r.spec_iv() == init_vector@,
    {
        CTR { init_vector }
    }
}


/// The control register value after [`AES::new`]: DMA for input and output
/// enabled, interrupts disabled, everything else at its reset value.
pub open spec fn init_cr() -> u32 {
    with_field(
        with_field(with_field(with_field(0, CR_DMAOUTEN, 1, 1), CR_DMAINEN, 1, 1), CR_ERRIE, 1, 0),
        CR_CCFIE,
        1,
        0,
    )
}

/// `cr` with `mode` selected, a stream of bytes configured and the
/// peripheral enabled.
pub open spec fn enabled_cr(cr: u32, chmod: u32, mode: u32) -> u32 {
    with_field(with_field(select_cr(cr, chmod, mode), CR_DATATYPE, 2, DATATYPE_BYTES), CR_EN, 1, 1)
}

/// Entry point to the AES API: the control register, as a plain value.
pub struct AES {
    cr: u32,
}

/// The register writes that enable the peripheral, in order.
pub struct Enabling {
    /// The values of `KEYR0` to `KEYR3`.
    pub key: [u32; 4],
    /// Key derivation: the two control register values to write (derivation
    /// mode selected, then the peripheral enabled), after which the
    /// computation complete flag is awaited.
    pub derive_key: Option<(u32, u32)>,
    /// The values of `IVR3`, `IVR2`, `IVR1` and `IVR0`, in this order.
    pub init_vector: Option<[u32; 4]>,
    /// The control register value that starts the stream.
    pub cr: u32,
}

/// An active encryption/decryption stream
///
/// You can get an instance of this struct by calling [`AES::enable`].
pub struct Stream {
    aes: AES,
    /// Can be used to write data to the AES peripheral
    pub tx: Tx,
    /// Can be used to read data from the AES peripheral
    pub rx: Rx,
}

/// Can be used to write data to the AES peripheral
///
/// You can access this struct via [`Stream`].
pub struct Tx(());

/// Can be used to read data from the AES peripheral
///
/// You can access this struct via [`Stream`].
pub struct Rx(());

impl AES {
    /// The control register.
    pub closed spec fn spec_cr(&self) -> u32 {
        self.cr
    }

    /// The control register value to write.
    pub fn cr(&self) -> (r: u32)
        ensures
            r == self.spec_cr(),
    {
        self.cr
    }

    /// Initialize the AES peripheral: DMA enabled, interrupts disabled.
    pub fn new() -> (r: Self)
        ensures
            r.spec_cr() == init_cr(),
    {
        proof {
            lemma_low_masks();
        }
        let cr = write_field(0, CR_DMAOUTEN, 1, 1);
        let cr = write_field(cr, CR_DMAINEN, 1, 1);
        let cr = write_field(cr, CR_ERRIE, 1, 0);
        let cr = write_field(cr, CR_CCFIE, 1, 0);
        AES { cr }
    }

    /// Enable the AES peripheral
    ///
    /// Returns a [`Stream`] instance which can be used to encrypt or decrypt
    /// data using the mode selected with the `mode` argument, and the
    /// register writes that configure the peripheral: the key, the key
    /// derivation for decryption, the initialisation vector and the control
    /// register value that starts the stream.
    ///
    /// Consumes the `AES` instance. You can get it back later once you're done
    /// with the `Stream`, using [`Stream::disable`].
    pub fn enable<M: Mode>(self, mode: M, key: [u32; 4]) -> (r: (Stream, Enabling))
        ensures
            r.1.key@ == key@,
            match r.1.derive_key {
                Some((c1, c2)) => mode.spec_derives_key() && c1 == with_field(
                    self.spec_cr(),
                    CR_MODE,
                    2,
                    MODE_KEY_DERIVATION,
                ) && c2 == with_field(c1, CR_EN, 1, 1),
                None => !mode.spec_derives_key(),
            },
            match r.1.init_vector {
                Some(v) => mode.spec_init_vector() == Some(v@),
                None => mode.spec_init_vector() is None,
            },
            r.1.cr == enabled_cr(self.spec_cr(), mode.spec_chmod(), mode.spec_mode()),
            r.0.spec_cr() == r.1.cr,
    {
        proof {
            lemma_low_masks();
        }
        let prep = mode.prepare();
        let derive_key = if prep.derive_key {
            let c1 = write_field(self.cr, CR_MODE, 2, MODE_KEY_DERIVATION);
            let c2 = write_field(c1, CR_EN, 1, 1);
            Some((c1, c2))
        } else {
            None
        };
        let cr = mode.select(self.cr);
        let cr = write_field(cr, CR_DATATYPE, 2, DATATYPE_BYTES);
        let cr = write_field(cr, CR_EN, 1, 1);
        let steps = Enabling { key: [key[0], key[1], key[2], key[3]], derive_key, init_vector: prep.init_vector, cr };
        assert(steps.key@ =~= key@);
        (Stream { aes: AES { cr }, tx: Tx(()), rx: Rx(()) }, steps)
    }
}

impl Stream {
    /// The control register.
    pub closed spec fn spec_cr(&self) -> u32 {
        self.aes.cr
    }

    /// The control register value that clears the computation complete flag,
    /// written after a block was read.
    pub fn clear_ccf(&self) -> (r: u32)
        ensures
            r == with_field(self.spec_cr(), CR_CCFC, 1, 1),
    {
        proof {
            lemma_low_masks();
        }
        write_field(self.aes.cr, CR_CCFC, 1, 1)
    }

    /// Disable the AES peripheral
    ///
    /// Consumes the stream and returns the disabled [`AES`] instance. Call this
    /// method when you're done encrypting/decrypting data. You can then create
    /// another `Stream` using [`AES::enable`].
    pub fn disable(self) -> (r: AES)
        ensures
            r.spec_cr() == with_field(self.spec_cr(), CR_EN, 1, 0),
    {
        proof {
            lemma_low_masks();
        }
        AES { cr: write_field(self.aes.cr, CR_EN, 1, 0) }
    }
}

impl Tx {
    /// Write a block to the AES peripheral: the words to write to `DINR`, in
    /// the order in which they are written.
    ///
    /// Please note that only one block can be written before you need to read
    /// the processed block back using [`Rx::read`].
    pub fn write(&mut self, block: &Block) -> (r: [u32; 4])
        ensures
            r@ == words_of_block(block@),
    {
        let r = [block_word(block, 3), block_word(block, 2), block_word(block, 1), block_word(block, 0)];
        assert(r@ =~= words_of_block(block@));
        r
    }

    /// The outcome of a write, from the status register `sr` read after it:
    /// a write while a computation is ongoing sets the write error flag, and
    /// the user needs to read the pending block first.
    pub fn check(&self, sr: u32) -> (r: Result<(), Error>)
        ensures
            r is Err <==> bit_set(sr, SR_WRERR),
    {
        if read_field(sr, SR_WRERR, 1) == 1 {
            Err(Error::Busy)
        } else {
            Ok(())
        }
    }

    /// Prepares the transfer of a buffer of `buffer_len` bytes at
    /// `buffer_addr` to the AES peripheral using DMA, as 32-bit words.
    ///
    /// Returns a DMA transfer that is ready to be started, and the channel's
    /// register values. It needs to be started for anything to happen.
    ///
    /// The buffer length must be a multiple of 16 and no larger than
    /// `u16::MAX`, and the buffer must be aligned to a word boundary.
    pub fn write_all<B, C: dma::Channel>(
        self,
        handle: &mut dma::Handle,
        buffer: B,
        buffer_len: usize,
        buffer_addr: u32,
        channel: C,
    ) -> (r: (Transfer<Self, C, B, dma::Ready>, dma::ChannelSetup))
        where
            Self: dma::Target<C>,
        requires
            buffer_len % 16 == 0,
            buffer_len <= u16::MAX,
            buffer_addr % 4 == 0,
        ensures
            r.1 == (dma::ChannelSetup {
                par: DINR_ADDRESS,
                mar: buffer_addr,
                ndtr: (buffer_len / 4) as u16,
                ccr: dma::ccr_value(2, 2, 1, false),
            }),
            field_selected::<Self, C>(*final(handle)),
    {
        let num_words = buffer_len / 4;
        let (inner, setup) = dma::Transfer::new::<u32>(
            handle,
            self,
            channel,
            (),
            num_words,
            buffer_addr,
            num_words,
            DINR_ADDRESS,
            dma::Priority::high(),
            dma::Direction::memory_to_peripheral(),
            false,
        );
        (Transfer { buffer, inner }, setup)
    }
}

/// The request of target `T` is selected on channel `C`.
pub open spec fn field_selected<T: dma::Target<C>, C: dma::Channel>(handle: dma::Handle) -> bool {
    crate::bits::field(handle.spec_cselr(), (4 * (C::spec_number() - 1)) as u32, 4) == T::spec_request()
}

impl Rx {
    /// Whether a computation is complete, per the status register `sr`: only
    /// then is a block to be read.
    pub fn is_ready(&self, sr: u32) -> (r: bool)
        ensures
            r == bit_set(sr, SR_CCF),
    {
        read_field(sr, SR_CCF, 1) == 1
    }

    /// The processed block, from the four words read from `DOUTR`, in the
    /// order in which they were read.
    pub fn read(&mut self, words: [u32; 4]) -> (r: Block)
        ensures
            r@ == block_of_words(words@),
    {
        let r = [
            word_byte(words[3], 0),
            word_byte(words[3], 1),
            word_byte(words[3], 2),
            word_byte(words[3], 3),
            word_byte(words[2], 0),
            word_byte(words[2], 1),
            word_byte(words[2], 2),
            word_byte(words[2], 3),
            word_byte(words[1], 0),
            word_byte(words[1], 1),
            word_byte(words[1], 2),
            word_byte(words[1], 3),
            word_byte(words[0], 0),
            word_byte(words[0], 1),
            word_byte(words[0], 2),
            word_byte(words[0], 3),
        ];
        assert(r@ =~= block_of_words(words@));
        r
    }

    /// Prepares the transfer from the AES peripheral into a buffer of
    /// `buffer_len` bytes at `buffer_addr` using DMA, as 32-bit words.
    ///
    /// Returns a DMA transfer that is ready to be started, and the channel's
    /// register values. It needs to be started for anything to happen.
    ///
    /// The buffer length must be a multiple of 16 and no larger than
    /// `u16::MAX`, and the buffer must be aligned to a word boundary.
    pub fn read_all<B, C: dma::Channel>(
        self,
        handle: &mut dma::Handle,
        buffer: B,
        buffer_len: usize,
        buffer_addr: u32,
        channel: C,
    ) -> (r: (Transfer<Self, C, B, dma::Ready>, dma::ChannelSetup))
        where
            Self: dma::Target<C>,
        requires
            buffer_len % 16 == 0,
            buffer_len <= u16::MAX,
            buffer_addr % 4 == 0,
        ensures
            r.1 == (dma::ChannelSetup {
                par: DOUTR_ADDRESS,
                mar: buffer_addr,
                ndtr: (buffer_len / 4) as u16,
                ccr: dma::ccr_value(2, 3, 0, false),
            }),
            field_selected::<Self, C>(*final(handle)),
    {
        let num_words = buffer_len / 4;
        let (inner, setup) = dma::Transfer::new::<u32>(
            handle,
            self,
            channel,
            (),
            num_words,
            buffer_addr,
            num_words,
            DOUTR_ADDRESS,
            dma::Priority::very_high(),
            dma::Direction::peripheral_to_memory(),
            false,
        );
        (Transfer { buffer, inner }, setup)
    }
}

/// Wrapper around a [`dma::Transfer`].
///
/// The AES peripheral only supports 32-bit word DMA transfers, while the
/// public API works with byte buffers.
pub struct Transfer<T, C, B, State> {
    buffer: B,
    inner: dma::Transfer<T, C, (), State>,
}

impl<T, C, B, State> Transfer<T, C, B, State> {
    /// The channel configuration register.
    pub closed spec fn spec_ccr(&self) -> u32 {
        self.inner.spec_ccr()
    }

    /// The channel configuration register value to write.
    pub fn ccr(&self) -> (r: u32)
        ensures
            r == self.spec_ccr(),
    {
        self.inner.ccr()
    }
}

impl<T, C: dma::Channel, B> Transfer<T, C, B, dma::Ready> {
    /// Enables the provided interrupts
    ///
    /// This setting only affects this transfer. It doesn't affect transfer on
    /// other channels, or subsequent transfers on the same channel.
    pub fn enable_interrupts(&mut self, interrupts: dma::Interrupts)
        ensures
            bit_set(final(self).spec_ccr(), dma::CCR_TEIE) == interrupts.transfer_error,
            bit_set(final(self).spec_ccr(), dma::CCR_HTIE) == interrupts.half_transfer,
            bit_set(final(self).spec_ccr(), dma::CCR_TCIE) == interrupts.transfer_complete,
            forall|o: u32, w: u32|
                1 <= w && o + w <= 32 && crate::bits::disjoint(dma::CCR_TCIE, 3, o, w) ==> #[trigger] crate::bits::field(
                    final(self).spec_ccr(),
                    o,
                    w,
                ) == crate::bits::field(old(self).spec_ccr(), o, w),
    {
        self.inner.enable_interrupts(interrupts)
    }

    /// Start the DMA transfer: the channel configuration register value with
    /// the channel enabled.
    pub fn start(self) -> (r: (Transfer<T, C, B, dma::Started>, u32))
        ensures
            r.1 == with_field(self.spec_ccr(), dma::CCR_EN, 1, 1),
            r.0.spec_ccr() == r.1,
    {
        let (inner, ccr) = self.inner.start();
        (Transfer { buffer: self.buffer, inner }, ccr)
    }
}

impl<T, C: dma::Channel, B> Transfer<T, C, B, dma::Started> {
    /// Indicates whether the transfer is still ongoing, per the DMA interrupt
    /// status register `isr`.
    pub fn is_active(&self, isr: u32) -> (r: bool)
        ensures
            r == !bit_set(isr, dma::isr_bit(C::spec_number(), 1)),
    {
        self.inner.is_active(isr)
    }

    /// One look at the DMA interrupt status register while waiting for the
    /// transfer to finish.
    pub fn wait_step(&self, isr: u32) -> (r: dma::WaitStep)
        ensures
            ({
                let n = C::spec_number();
                let complete = bit_set(isr, dma::isr_bit(n, 1));
                let error = bit_set(isr, dma::isr_bit(n, 3));
                &&& !complete && error ==> r == dma::WaitStep::Failed(1u32 << dma::isr_bit(n, 3))
                &&& !complete && !error ==> r == dma::WaitStep::Pending
                &&& complete ==> r == dma::WaitStep::Complete(
                    1u32 << dma::isr_bit(n, 1),
                    with_field(self.spec_ccr(), dma::CCR_EN, 1, 0),
                )
            }),
    {
        self.inner.wait_step(isr)
    }

    /// Ends the transfer and returns the owned resources, with an error when
    /// the error flag is set in the DMA interrupt status register `isr`.
    pub fn wait(self, isr: u32) -> (r: Result<dma::TransferResources<T, C, B>, (dma::TransferResources<T, C, B>, dma::Error)>)
        ensures
            bit_set(isr, dma::isr_bit(C::spec_number(), 3)) <==> r is Err,
    {
        let buffer = self.buffer;
        match self.inner.finish(isr) {
            Ok(res) => Ok(dma::TransferResources { target: res.target, channel: res.channel, buffer }),
            Err((res, err)) => Err((dma::TransferResources { target: res.target, channel: res.channel, buffer }, err)),
        }
    }
}

// Request numbers of the AES peripheral on the DMA channels (reference
// manual, table 51).
impl dma::Target<dma::Channel1> for Tx {
    open spec fn spec_request() -> u32 {
        11
    }

    fn request() -> (r: u32) {
        11
    }
}

impl dma::Target<dma::Channel5> for Tx {
    open spec fn spec_request() -> u32 {
        11
    }

    fn request() -> (r: u32) {
        11
    }
}

impl dma::Target<dma::Channel2> for Rx {
    open spec fn spec_request() -> u32 {
        11
    }

    fn request() -> (r: u32) {
        11
    }
}

impl dma::Target<dma::Channel3> for Rx {
    open spec fn spec_request() -> u32 {
        11
    }

    fn request() -> (r: u32) {
        11
    }
}

} // verus!
