//! The tray icon: the letter C on a transparent square, white while
//! connected and red while not.

use vstd::prelude::*;

verus! {

/// The icon's width and height in pixels.
pub const ICON_SIZE: usize = 22;

/// The number of rows of the letter's pattern.
pub const GLYPH_ROWS: usize = 19;

/// The number of columns of the letter's pattern.
pub const GLYPH_COLUMNS: usize = 17;

/// Row `y` of the letter's pattern: a `C` marks a pixel of the letter.
pub open spec fn glyph_row(y: int) -> Seq<char> {
    if y == 0 {
        "     CCCCCCC     "@
    } else if y == 1 {
        "   CCCCCCCCCCC   "@
    } else if y == 2 {
        "  CCCCC   CCCCC  "@
    } else if y == 3 {
        " CCCC       CCCC "@
    } else if y == 4 {
        " CCC         CCC "@
    } else if y == 5 {
        "CCC           CCC"@
    } else if y == 6 {
        "CCC              "@
    } else if y == 7 {
        "CCC              "@
    } else if y == 8 {
        "CCC              "@
    } else if y == 9 {
        "CCC              "@
    } else if y == 10 {
        "CCC              "@
    } else if y == 11 {
        "CCC              "@
    } else if y == 12 {
        "CCC              "@
    } else if y == 13 {
        "CCC           CCC"@
    } else if y == 14 {
        " CCC         CCC "@
    } else if y == 15 {
        " CCCC       CCCC "@
    } else if y == 16 {
        "  CCCCC   CCCCC  "@
    } else if y == 17 {
        "   CCCCCCCCCCC   "@
    } else {
        "     CCCCCCC     "@
    }
}

/// Whether the pixel in column `x` of row `y` belongs to the letter.
pub open spec fn in_glyph(x: int, y: int) -> bool {
    0 <= y < GLYPH_ROWS && 0 <= x < GLYPH_COLUMNS && glyph_row(y)[x] == 'C'
}

/// The letter's colour, as red, green and blue.
pub open spec fn glyph_colour(connected: bool) -> (u8, u8, u8) {
    if connected {
        (255u8, 255u8, 255u8)
    } else {
        (255u8, 100u8, 100u8)
    }
}

/// Byte `i` of the icon's data. The pixels stand row by row, four bytes
/// each: alpha, red, green, blue. A pixel of the letter is opaque and
/// has the letter's colour; every other pixel is transparent black.
pub open spec fn icon_byte(connected: bool, i: int) -> u8 {
    let pixel = i / 4;
    let channel = i % 4;
    if in_glyph(pixel % (ICON_SIZE as int), pixel / (ICON_SIZE as int)) {
        if channel == 0 {
            255u8
        } else if channel == 1 {
            glyph_colour(connected).0
        } else if channel == 2 {
            glyph_colour(connected).1
        } else {
            glyph_colour(connected).2
        }
    } else {
        0u8
    }
}

/// The icon's data.
pub open spec fn icon_data(connected: bool) -> Seq<u8> {
    Seq::new((ICON_SIZE * ICON_SIZE * 4) as nat, |i: int| icon_byte(connected, i))
}

/// Row `y` of the letter's pattern.
fn glyph_row_text(y: usize) -> (row: &'static str)
    requires
        y < GLYPH_ROWS,
    ensures
        row@ == glyph_row(y as int),
        row@.len() == GLYPH_COLUMNS,
{
    if y == 0 {
        proof {
            reveal_strlit("     CCCCCCC     ");
        }
        "     CCCCCCC     "
    } else if y == 1 {
        proof {
            reveal_strlit("   CCCCCCCCCCC   ");
        }
        "   CCCCCCCCCCC   "
    } else if y == 2 {
        proof {
            reveal_strlit("  CCCCC   CCCCC  ");
        }
        "  CCCCC   CCCCC  "
    } else if y == 3 {
        proof {
            reveal_strlit(" CCCC       CCCC ");
        }
        " CCCC       CCCC "
    } else if y == 4 {
        proof {
            reveal_strlit(" CCC         CCC ");
        }
        " CCC         CCC "
    } else if y == 5 {
        proof {
            reveal_strlit("CCC           CCC");
        }
        "CCC           CCC"
    } else if y == 6 {
        proof {
            reveal_strlit("CCC              ");
        }
        "CCC              "
    } else if y == 7 {
        proof {
            reveal_strlit("CCC              ");
        }
        "CCC              "
    } else if y == 8 {
        proof {
            reveal_strlit("CCC              ");
        }
        "CCC              "
    } else if y == 9 {
        proof {
            reveal_strlit("CCC              ");
        }
        "CCC              "
    } else if y == 10 {
        proof {
            reveal_strlit("CCC              ");
        }
        "CCC              "
    } else if y == 11 {
        proof {
            reveal_strlit("CCC              ");
        }
        "CCC              "
    } else if y == 12 {
        proof {
            reveal_strlit("CCC              ");
        }
        "CCC              "
    } else if y == 13 {
        proof {
            reveal_strlit("CCC           CCC");
        }
        "CCC           CCC"
    } else if y == 14 {
        proof {
            reveal_strlit(" CCC         CCC ");
        }
        " CCC         CCC "
    } else if y == 15 {
        proof {
            reveal_strlit(" CCCC       CCCC ");
        }
        " CCCC       CCCC "
    } else if y == 16 {
        proof {
            reveal_strlit("  CCCCC   CCCCC  ");
        }
        "  CCCCC   CCCCC  "
    } else if y == 17 {
        proof {
            reveal_strlit("   CCCCCCCCCCC   ");
        }
        "   CCCCCCCCCCC   "
    } else {
        proof {
            reveal_strlit("     CCCCCCC     ");
        }
        "     CCCCCCC     "
    }
}

/// Whether the pixel in column `x` of row `y` belongs to the letter.
pub fn is_glyph_pixel(x: usize, y: usize) -> (inside: bool)
    ensures
        inside == in_glyph(x as int, y as int),
{
    if y < GLYPH_ROWS && x < GLYPH_COLUMNS {
        glyph_row_text(y).get_char(x) == 'C'
    } else {
        false
    }
}

/// The icon's data for the given state of the connection.
pub fn icon_pixels(connected: bool) -> (data: Vec<u8>)
    ensures
        data@ == icon_data(connected),
{
    let (red, green, blue) = if connected {
        (255u8, 255u8, 255u8)
    } else {
        (255u8, 100u8, 100u8)
    };
    let mut data: Vec<u8> = Vec::new();
    let mut pixel: usize = 0;
    while pixel < ICON_SIZE * ICON_SIZE
        invariant
            pixel <= ICON_SIZE * ICON_SIZE,
            (red, green, blue) == glyph_colour(connected),
            data@.len() == 4 * pixel,
            forall|i: int| 0 <= i < 4 * pixel ==> data@[i] == icon_byte(connected, i),
        decreases ICON_SIZE * ICON_SIZE - pixel,
    {
        if is_glyph_pixel(pixel % ICON_SIZE, pixel / ICON_SIZE) {
            data.push(255u8);
            data.push(red);
            data.push(green);
            data.push(blue);
        } else {
            data.push(0u8);
            data.push(0u8);
            data.push(0u8);
            data.push(0u8);
        }
        pixel += 1;
    }
    assert(data@ =~= icon_data(connected));
    data
}

} // verus!
