use vstd::prelude::*;

verus! {

/// Size of the cartridge window at $8000-$FFFF.
pub const WINDOW_SIZE: usize = 0x8000;

pub const SIZE_8K: usize = 0x2000;

pub const SIZE_32K: usize = 0x8000;

pub const SIZE_2M: usize = 0x200000;

/// Whether a ROM image of `len` bytes is of a supported cartridge size.
pub open spec fn supported_len(len: nat) -> bool {
    len == 0x2000 || len == 0x8000 || len == 0x200000
}

/// The 32 KB window that a ROM image of a supported size presents: an 8 KB image
/// mirrored four times, a 32 KB image as it is, or the last 32 KB page of a 2 MB image.
pub open spec fn rom_window(image: Seq<u8>) -> Seq<u8> {
    if image.len() == 0x2000 {
        Seq::new(0x8000, |i: int| image[i % 0x2000])
    } else if image.len() == 0x8000 {
        image
    } else {
        image.subrange(0x200000 - 0x8000, 0x200000)
    }
}

/// The bytes of `slice`, copied into a new vector.
fn copy_image(slice: &[u8]) -> (r: Vec<u8>)
    ensures
        r@ == slice@,
{
    let mut v: Vec<u8> = Vec::with_capacity(slice.len());
    let mut i: usize = 0;
    while i < slice.len()
        invariant
            i <= slice@.len(),
            v@ == slice@.subrange(0, i as int),
        decreases slice@.len() - i,
    {
        v.push(slice[i]);
        i += 1;
    }
    assert(v@ =~= slice@);
    v
}

/// A cartridge of one ROM size, presenting a uniform 32 KB window.
pub trait Cartridge: Sized {
    /// The image size that this kind of cartridge takes.
    spec fn image_len() -> nat;

    spec fn wf(&self) -> bool;

    /// The bytes visible at $8000-$FFFF.
    spec fn window(&self) -> Seq<u8>;

    fn from_slice(slice: &[u8]) -> (r: Self)
        requires
            slice@.len() == Self::image_len(),
        ensures
            r.wf(),
            r.window() == rom_window(slice@),
    ;

    fn read(&self, offset: u16) -> (r: u8)
        requires
            self.wf(),
            offset < 0x8000,
        ensures
            r == self.window()[offset as int],
    ;
}

/// An 8 KB cartridge, mirrored across the window.
#[derive(Debug)]
pub struct Cartridge8K {
    data: Vec<u8>,
}

impl Cartridge for Cartridge8K {
    open spec fn image_len() -> nat {
        0x2000
    }

    closed spec fn wf(&self) -> bool {
        self.data@.len() == 0x2000
    }

    closed spec fn window(&self) -> Seq<u8> {
        Seq::new(0x8000, |i: int| self.data@[i % 0x2000])
    }

    fn from_slice(slice: &[u8]) -> (r: Self) {
        let r = Cartridge8K { data: copy_image(slice) };
        assert(r.window() =~= rom_window(slice@));
        r
    }

    fn read(&self, offset: u16) -> (r: u8) {
        self.data[offset as usize % SIZE_8K]
    }
}

/// A 32 KB cartridge, filling the window directly.
#[derive(Debug)]
pub struct Cartridge32K {
    data: Vec<u8>,
}

impl Cartridge for Cartridge32K {
    open spec fn image_len() -> nat {
        0x8000
    }

    closed spec fn wf(&self) -> bool {
        self.data@.len() == 0x8000
    }

    closed spec fn window(&self) -> Seq<u8> {
        self.data@
    }

    fn from_slice(slice: &[u8]) -> (r: Self) {
        Cartridge32K { data: copy_image(slice) }
    }

    fn read(&self, offset: u16) -> (r: u8) {
        self.data[offset as usize]
    }
}

/// A 2 MB cartridge of 64 pages of 32 KB; the window shows the last page.
#[derive(Debug)]
pub struct Cartridge2M {
    data: Vec<u8>,
    current_page: u8,
}

impl Cartridge for Cartridge2M {
    open spec fn image_len() -> nat {
        0x200000
    }

    closed spec fn wf(&self) -> bool {
        &&& self.data@.len() == 0x200000
        &&& self.current_page < 64
    }

    closed spec fn window(&self) -> Seq<u8> {
        self.data@.subrange(self.current_page * 0x8000, self.current_page * 0x8000 + 0x8000)
    }

    fn from_slice(slice: &[u8]) -> (r: Self) {
        let r = Cartridge2M { data: copy_image(slice), current_page: 63 };
        assert(r.window() =~= rom_window(slice@));
        r
    }

    fn read(&self, offset: u16) -> (r: u8) {
        self.data[self.current_page as usize * WINDOW_SIZE + offset as usize]
    }
}

/// Why a ROM image was refused.
#[derive(Debug, Clone, Copy, PartialEq, Eq, Structural)]
pub enum RomError {
    /// The image is not 8 KB, 32 KB or 2 MB long; holds its length.
    UnsupportedSize(usize),
}

/// A cartridge of any supported size.
#[derive(Debug)]
pub enum CartridgeType {
    Cart32k(Cartridge32K),
    Cart8k(Cartridge8K),
    Cart2m(Cartridge2M),
}

impl CartridgeType {
    pub open spec fn wf(&self) -> bool {
        &&& match self {
            CartridgeType::Cart32k(c) => c.wf(),
            CartridgeType::Cart8k(c) => c.wf(),
            CartridgeType::Cart2m(c) => c.wf(),
        }
        &&& self.window().len() == 0x8000
    }

    /// The bytes visible at $8000-$FFFF.
    pub open spec fn window(&self) -> Seq<u8> {
        match self {
            CartridgeType::Cart32k(c) => c.window(),
            CartridgeType::Cart8k(c) => c.window(),
            CartridgeType::Cart2m(c) => c.window(),
        }
    }

    /// Picks the cartridge kind by the image's length; any other length is refused.
    pub fn from_slice(slice: &[u8]) -> (r: Result<CartridgeType, RomError>)
        ensures
            supported_len(slice@.len()) <==> r is Ok,
            r is Ok ==> r->Ok_0.wf() && r->Ok_0.window() == rom_window(slice@),
            slice@.len() == 0x2000 ==> r is Ok && r->Ok_0 is Cart8k,
            slice@.len() == 0x8000 ==> r is Ok && r->Ok_0 is Cart32k,
            slice@.len() == 0x200000 ==> r is Ok && r->Ok_0 is Cart2m,
            r is Err ==> r->Err_0 == RomError::UnsupportedSize(slice@.len() as usize),
    {
        let len = slice.len();
        if len == SIZE_8K {
            Ok(CartridgeType::Cart8k(Cartridge8K::from_slice(slice)))
        } else if len == SIZE_32K {
            Ok(CartridgeType::Cart32k(Cartridge32K::from_slice(slice)))
        } else if len == SIZE_2M {
            Ok(CartridgeType::Cart2m(Cartridge2M::from_slice(slice)))
        } else {
            Err(RomError::UnsupportedSize(len))
        }
    }

    /// A 32 KB cartridge of zero bytes, for a console with nothing inserted.
    pub fn blank() -> (r: CartridgeType)
        ensures
            r.wf(),
            r.window() == Seq::new(0x8000, |i: int| 0u8),
    {
        let data: Vec<u8> = vec![0u8; SIZE_32K];
        let r = CartridgeType::Cart32k(Cartridge32K::from_slice(data.as_slice()));
        assert(data@ =~= Seq::new(0x8000, |i: int| 0u8));
        r
    }

    /// The byte at `offset` of the window.
    pub fn read(&self, offset: u16) -> (r: u8)
        requires
            self.wf(),
            offset < 0x8000,
        ensures
            r == self.window()[offset as int],
    {
        match self {
            CartridgeType::Cart32k(c) => c.read(offset),
            CartridgeType::Cart8k(c) => c.read(offset),
            CartridgeType::Cart2m(c) => c.read(offset),
        }
    }
}

} // verus!
