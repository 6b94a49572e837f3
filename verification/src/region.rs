use vstd::prelude::*;
use crate::color::{dominant_color_nonempty, is_dominant, Color};
use crate::errors::CycleError;
use crate::flag::{encode_flag, flag_byte, poll_action_of, poll_decision, Flag, PollAction};
use crate::layout::{
    lemma_dims_product_bound, lemma_pixel_index_bound, lemma_rows_le_pixels, spec_pixel_base,
    spec_required_bytes, spec_result_base, COLUMNS_OFFSET, FLAG_OFFSET, ROWS_OFFSET,
};

verus! {

/// The fixed capacity, in bytes, of the region the worker creates.
pub const REGION_CAPACITY: usize = 100000;

/// The pixel stored at row `row`, column `col` of a region laid out for
/// `columns` columns.
pub open spec fn pixel_at(region: Seq<u8>, columns: int, row: int, col: int) -> Color {
    Color {
        red: region[spec_pixel_base(columns, row, col)],
        green: region[spec_pixel_base(columns, row, col) + 1],
        blue: region[spec_pixel_base(columns, row, col) + 2],
    }
}

/// Row `row` of the pixel area, as the sequence of its pixels.
pub open spec fn pixel_row(region: Seq<u8>, columns: int, row: int) -> Seq<Color> {
    Seq::new(columns as nat, |col: int| pixel_at(region, columns, row, col))
}

/// The result triple stored for row `row` of a `rows` by `columns` image.
pub open spec fn result_at(region: Seq<u8>, rows: int, columns: int, row: int) -> Color {
    Color {
        red: region[spec_result_base(rows, columns, row)],
        green: region[spec_result_base(rows, columns, row) + 1],
        blue: region[spec_result_base(rows, columns, row) + 2],
    }
}

/// What one poll iteration did.
#[derive(Clone, Copy, PartialEq, Eq, Structural, Debug)]
pub enum PollOutcome {
    /// Not the worker's turn; nothing was touched.
    Waited,
    /// An input image was processed and its results deposited.
    Produced,
    /// The session is over; the worker must stop polling.
    Finished,
}

/// An owned image of the shared region's bytes: one flat buffer holding
/// the flag, the metadata, the pixel rows, and the result triples. All
/// offset arithmetic is confined to this type's bounds-checked accessors.
pub struct Region {
    bytes: Vec<u8>,
}

impl View for Region {
    type V = Seq<u8>;

    closed spec fn view(&self) -> Seq<u8> {
        self.bytes@
    }
}

impl Region {
    /// A fresh all-zero region of `capacity` bytes. The smallest usable
    /// region holds the flag byte and the two metadata bytes.
    pub fn new(capacity: usize) -> (region: Region)
        requires
            capacity >= 3,
        ensures
            region@.len() == capacity,
            forall|i: int| 0 <= i < capacity ==> region@[i] == 0u8,
    {
        let mut bytes: Vec<u8> = Vec::new();
        let mut i: usize = 0;
        while i < capacity
            invariant
                i <= capacity,
                bytes@.len() == i,
                forall|k: int| 0 <= k < i ==> bytes@[k] == 0u8,
            decreases capacity - i,
        {
            bytes.push(0);
            i = i + 1;
        }
        Region { bytes }
    }

    /// A region over bytes already at hand, such as a copy of a mapped
    /// block.
    pub fn from_bytes(bytes: Vec<u8>) -> (region: Region)
        ensures
            region@ == bytes@,
    {
        Region { bytes }
    }

    /// The region's bytes, to be copied back to a mapped block.
    pub fn into_bytes(self) -> (bytes: Vec<u8>)
        ensures
            bytes@ == self@,
    {
        self.bytes
    }

    /// How many bytes the region holds.
    pub fn capacity(&self) -> (n: usize)
        ensures
            n == self@.len(),
    {
        self.bytes.len()
    }

    /// The current flag byte.
    pub fn read_flag(&self) -> (b: u8)
        requires
            self@.len() >= 1,
        ensures
            b == self@[FLAG_OFFSET as int],
    {
        self.bytes[FLAG_OFFSET]
    }

    /// Writes a protocol state into the flag byte; nothing else moves.
    pub fn write_flag(&mut self, f: Flag)
        requires
            old(self)@.len() >= 1,
        ensures
            final(self)@ == old(self)@.update(FLAG_OFFSET as int, flag_byte(f)),
    {
        let b = encode_flag(f);
        self.bytes[FLAG_OFFSET] = b;
    }

    /// The row count from the metadata bytes.
    pub fn read_rows(&self) -> (n: u8)
        requires
            self@.len() >= 3,
        ensures
            n == self@[ROWS_OFFSET as int],
    {
        self.bytes[ROWS_OFFSET]
    }

    /// The column count from the metadata bytes.
    pub fn read_columns(&self) -> (n: u8)
        requires
            self@.len() >= 3,
        ensures
            n == self@[COLUMNS_OFFSET as int],
    {
        self.bytes[COLUMNS_OFFSET]
    }

    /// Writes the image shape into the metadata bytes. In a live session
    /// the producer does this; the worker only reads it back.
    pub fn write_dimensions(&mut self, rows: u8, columns: u8)
        requires
            old(self)@.len() >= 3,
        ensures
            final(self)@ == old(self)@.update(ROWS_OFFSET as int, rows).update(
                COLUMNS_OFFSET as int,
                columns,
            ),
    {
        self.bytes[ROWS_OFFSET] = rows;
        self.bytes[COLUMNS_OFFSET] = columns;
    }

    /// The pixel at `row`, `col` of a `rows` by `columns` image.
    pub fn read_pixel(&self, rows: u8, columns: u8, row: usize, col: usize) -> (c: Color)
        requires
            row < rows as usize,
            col < columns as usize,
            spec_required_bytes(rows as int, columns as int) <= self@.len(),
        ensures
            c == pixel_at(self@, columns as int, row as int, col as int),
    {
        proof {
            lemma_dims_product_bound(rows as int, columns as int);
            lemma_pixel_index_bound(rows as int, columns as int, row as int, col as int);
        }
        let base: usize = 3 + 3 * (row * (columns as usize) + col);
        Color { red: self.bytes[base], green: self.bytes[base + 1], blue: self.bytes[base + 2] }
    }

    /// Stores the pixel at `row`, `col` of a `rows` by `columns` image.
    /// In a live session the producer does this; it is here so that a
    /// whole exchange can be exercised on an owned region.
    pub fn write_pixel(&mut self, rows: u8, columns: u8, row: usize, col: usize, c: Color)
        requires
            row < rows as usize,
            col < columns as usize,
            spec_required_bytes(rows as int, columns as int) <= old(self)@.len(),
        ensures
            final(self)@.len() == old(self)@.len(),
            pixel_at(final(self)@, columns as int, row as int, col as int) == c,
            forall|i: int|
                0 <= i < final(self)@.len() && !(spec_pixel_base(
                    columns as int,
                    row as int,
                    col as int,
                ) <= i < spec_pixel_base(columns as int, row as int, col as int) + 3)
                    ==> final(self)@[i] == old(self)@[i],
    {
        proof {
            lemma_dims_product_bound(rows as int, columns as int);
            lemma_pixel_index_bound(rows as int, columns as int, row as int, col as int);
        }
        let base: usize = 3 + 3 * (row * (columns as usize) + col);
        self.bytes[base] = c.red;
        self.bytes[base + 1] = c.green;
        self.bytes[base + 2] = c.blue;
    }

    /// The result triple deposited for row `row` of a `rows` by `columns`
    /// image.
    pub fn read_result(&self, rows: u8, columns: u8, row: usize) -> (c: Color)
        requires
            row < rows as usize,
            columns > 0,
            spec_required_bytes(rows as int, columns as int) <= self@.len(),
        ensures
            c == result_at(self@, rows as int, columns as int, row as int),
    {
        proof {
            lemma_dims_product_bound(rows as int, columns as int);
            lemma_rows_le_pixels(rows as int, columns as int);
        }
        let base: usize = 3 + 3 * ((rows as usize) * (columns as usize)) + 3 * row;
        Color { red: self.bytes[base], green: self.bytes[base + 1], blue: self.bytes[base + 2] }
    }

    /// One full processing pass. Reads the image shape from the metadata
    /// bytes, refuses a shape whose pixels and results do not fit in the
    /// region or whose rows have no pixels, and otherwise deposits each
    /// row's dominant color in that row's result triple. The flag, the
    /// metadata, and the pixel bytes are never touched; a refused cycle
    /// leaves the whole region as it was.
    pub fn process_cycle(&mut self) -> (r: Result<(), CycleError>)
        requires
            old(self)@.len() >= 3,
        ensures
            final(self)@.len() == old(self)@.len(),
            ({
                let rows = old(self)@[1] as int;
                let columns = old(self)@[2] as int;
                &&& ((r is Err && r->Err_0 == CycleError::OversizeImage) <==> spec_required_bytes(
                    rows,
                    columns,
                ) > old(self)@.len())
                &&& ((r is Err && r->Err_0 == CycleError::EmptyRow) <==> (spec_required_bytes(
                    rows,
                    columns,
                ) <= old(self)@.len() && columns == 0 && rows > 0))
                &&& (r is Err ==> final(self)@ == old(self)@)
                &&& (r is Ok ==> {
                    &&& forall|i: int|
                        0 <= i < 3 + 3 * (rows * columns) ==> final(self)@[i] == old(self)@[i]
                    &&& forall|i: int|
                        3 + 3 * (rows * columns) + 3 * rows <= i < final(self)@.len()
                            ==> final(self)@[i] == old(self)@[i]
                    &&& forall|t: int|
                        0 <= t < rows ==> is_dominant(
                            pixel_row(old(self)@, columns, t),
                            result_at(final(self)@, rows, columns, t),
                        )
                })
            }),
    {
        let ghost orig: Seq<u8> = self@;
        let rows_byte: u8 = self.bytes[1];
        let columns_byte: u8 = self.bytes[2];
        let rows: usize = rows_byte as usize;
        let columns: usize = columns_byte as usize;
        proof {
            lemma_dims_product_bound(rows as int, columns as int);
        }
        let pixels: usize = rows * columns;
        let required: usize = 3 + 6 * pixels;
        if required > self.bytes.len() {
            return Err(CycleError::OversizeImage);
        }
        if columns == 0 {
            if rows > 0 {
                return Err(CycleError::EmptyRow);
            }
            return Ok(());
        }
        proof {
            lemma_rows_le_pixels(rows as int, columns as int);
        }
        let result_start: usize = 3 + 3 * pixels;
        let mut t: usize = 0;
        while t < rows
            invariant
                self@.len() == orig.len(),
                orig.len() >= 3,
                rows == orig[1] as usize,
                columns == orig[2] as usize,
                1 <= columns <= 255,
                rows <= 255,
                pixels == rows * columns,
                rows <= pixels <= 65025,
                result_start == 3 + 3 * pixels,
                3 + 6 * pixels <= orig.len(),
                t <= rows,
                forall|i: int| 0 <= i < 3 + 3 * pixels ==> self@[i] == orig[i],
                forall|i: int| 3 + 3 * pixels + 3 * t <= i < self@.len() ==> self@[i] == orig[i],
                forall|u: int|
                    0 <= u < t ==> is_dominant(
                        pixel_row(orig, columns as int, u),
                        result_at(self@, rows as int, columns as int, u),
                    ),
            decreases rows - t,
        {
            let mut rowv: Vec<Color> = Vec::new();
            let mut j: usize = 0;
            while j < columns
                invariant
                    self@.len() == orig.len(),
                    t < rows,
                    1 <= columns <= 255,
                    rows <= 255,
                    pixels == rows * columns,
                    rows <= pixels <= 65025,
                    3 + 6 * pixels <= orig.len(),
                    j <= columns,
                    rowv@.len() == j,
                    forall|i: int| 0 <= i < 3 + 3 * pixels ==> self@[i] == orig[i],
                    forall|k: int|
                        0 <= k < j ==> rowv@[k] == pixel_at(orig, columns as int, t as int, k),
                decreases columns - j,
            {
                proof {
                    lemma_pixel_index_bound(rows as int, columns as int, t as int, j as int);
                }
                let base: usize = 3 + 3 * (t * columns + j);
                let c = Color {
                    red: self.bytes[base],
                    green: self.bytes[base + 1],
                    blue: self.bytes[base + 2],
                };
                proof {
                    assert(c == pixel_at(orig, columns as int, t as int, j as int));
                }
                rowv.push(c);
                j = j + 1;
            }
            proof {
                assert(rowv@ =~= pixel_row(orig, columns as int, t as int));
            }
            let dominant = dominant_color_nonempty(&rowv);
            let rbase: usize = result_start + 3 * t;
            let ghost before: Seq<u8> = self@;
            self.bytes[rbase] = dominant.red;
            self.bytes[rbase + 1] = dominant.green;
            self.bytes[rbase + 2] = dominant.blue;
            proof {
                assert(result_at(self@, rows as int, columns as int, t as int) == dominant);
                assert forall|u: int| 0 <= u < t + 1 implies is_dominant(
                    pixel_row(orig, columns as int, u),
                    result_at(self@, rows as int, columns as int, u),
                ) by {
                    if u < t {
                        assert(result_at(self@, rows as int, columns as int, u) == result_at(
                            before,
                            rows as int,
                            columns as int,
                            u,
                        ));
                    }
                }
            }
            t = t + 1;
        }
        Ok(())
    }

    /// One iteration of the poll loop over this region's bytes: samples
    /// the flag once and reacts exactly as the protocol allows. From
    /// `InputReady` the region passes through `Intermediate` and always
    /// ends at `OutputReady`, with the results deposited when the cycle
    /// was processable and an untouched region otherwise; `NoMoreInput`
    /// is acknowledged with `Intermediate` and ends the session; any
    /// other flag value leaves the region alone.
    pub fn poll_step(&mut self) -> (r: Result<PollOutcome, CycleError>)
        requires
            old(self)@.len() >= 3,
        ensures
            final(self)@.len() == old(self)@.len(),
            ({
                let action = poll_action_of(old(self)@[0]);
                let rows = old(self)@[1] as int;
                let columns = old(self)@[2] as int;
                &&& (action == PollAction::Wait ==> r == Ok::<PollOutcome, CycleError>(
                    PollOutcome::Waited,
                ) && final(self)@ == old(self)@)
                &&& (action == PollAction::Shutdown ==> r == Ok::<PollOutcome, CycleError>(
                    PollOutcome::Finished,
                ) && final(self)@ == old(self)@.update(0, flag_byte(Flag::Intermediate)))
                &&& (action == PollAction::RunCycle ==> {
                    &&& final(self)@[0] == flag_byte(Flag::OutputReady)
                    &&& ((r is Err && r->Err_0 == CycleError::OversizeImage)
                        <==> spec_required_bytes(rows, columns) > old(self)@.len())
                    &&& ((r is Err && r->Err_0 == CycleError::EmptyRow) <==> (
                        spec_required_bytes(rows, columns) <= old(self)@.len() && columns == 0
                        && rows > 0))
                    &&& (r is Ok ==> r->Ok_0 == PollOutcome::Produced)
                    &&& (r is Err ==> final(self)@ == old(self)@.update(
                        0,
                        flag_byte(Flag::OutputReady),
                    ))
                    &&& (r is Ok ==> {
                        &&& forall|i: int|
                            1 <= i < 3 + 3 * (rows * columns) ==> final(self)@[i] == old(
                                self,
                            )@[i]
                        &&& forall|i: int|
                            3 + 3 * (rows * columns) + 3 * rows <= i < final(self)@.len()
                                ==> final(self)@[i] == old(self)@[i]
                        &&& forall|t: int|
                            0 <= t < rows ==> is_dominant(
                                pixel_row(old(self)@, columns, t),
                                result_at(final(self)@, rows, columns, t),
                            )
                    })
                })
            }),
    {
        let ghost orig: Seq<u8> = self@;
        let b = self.read_flag();
        let action = poll_decision(b);
        match action {
            PollAction::Wait => Ok(PollOutcome::Waited),
            PollAction::Shutdown => {
                self.write_flag(Flag::Intermediate);
                Ok(PollOutcome::Finished)
            },
            PollAction::RunCycle => {
                self.write_flag(Flag::Intermediate);
                let ghost mid: Seq<u8> = self@;
                let outcome = self.process_cycle();
                let ghost done: Seq<u8> = self@;
                self.write_flag(Flag::OutputReady);
                proof {
                    let rows = orig[1] as int;
                    let columns = orig[2] as int;
                    if outcome is Ok {
                        assert forall|t: int| 0 <= t < rows implies pixel_row(
                            mid,
                            columns,
                            t,
                        ) =~= pixel_row(orig, columns, t) by {
                            assert forall|col: int| 0 <= col < columns implies pixel_at(
                                mid,
                                columns,
                                t,
                                col,
                            ) == pixel_at(orig, columns, t, col) by {
                                lemma_pixel_index_bound(rows, columns, t, col);
                            }
                        }
                        assert forall|t: int| 0 <= t < rows implies result_at(
                            self@,
                            rows,
                            columns,
                            t,
                        ) == result_at(done, rows, columns, t) by {
                            lemma_dims_product_bound(rows, columns);
                            assert(spec_required_bytes(rows, columns) <= orig.len());
                            assert(columns >= 1);
                            lemma_rows_le_pixels(rows, columns);
                            assert(spec_result_base(rows, columns, t) + 2 < orig.len());
                        }
                    } else {
                        assert(self@ =~= orig.update(0, flag_byte(Flag::OutputReady)));
                    }
                }
                match outcome {
                    Ok(()) => Ok(PollOutcome::Produced),
                    Err(e) => Err(e),
                }
            },
        }
    }
}

} // verus!
