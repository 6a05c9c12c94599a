use crate::chance::draw;
use crate::text::{decimal_string, decimal_text};
use vstd::prelude::*;

verus! {

/// The picture commands: which file each of them sends.
pub struct Pic;

/// A picture to send: where its file lies, and the name it is sent under.
pub struct Picture {
    pub path: String,
    pub file_name: String,
}

/// The name of the picture numbered `index` in the album `album`.
pub open spec fn file_name_text(album: Seq<char>, index: nat) -> Seq<char> {
    album + decimal_text(index) + ".jpg"@
}

/// Where the picture numbered `index` of the album `album` lies.
pub open spec fn path_text(album: Seq<char>, index: nat) -> Seq<char> {
    "images/"@ + file_name_text(album, index)
}

/// Whether `picture` is the one numbered `index` in `album`.
pub open spec fn is_picture(picture: Picture, album: Seq<char>, index: nat) -> bool {
    &&& picture.path@ == path_text(album, index)
    &&& picture.file_name@ == file_name_text(album, index)
}

/// Whether `picture` is one of the `count` pictures of `album`, which are
/// numbered from one.
pub open spec fn is_from_album(picture: Picture, album: Seq<char>, count: nat) -> bool {
    exists|index: nat| 1 <= index <= count && is_picture(picture, album, index)
}

/// The album that `bimbo` sends from on a draw of `draw` out of a hundred: its
/// own, nine times in ten.
pub open spec fn bimbo_album(draw: u32) -> (Seq<char>, u8) {
    if draw < 90 {
        ("bimbo"@, 1u8)
    } else {
        ("demi"@, 4u8)
    }
}

impl Pic {
    /// The picture numbered `index` in `album`.
    pub fn picture(album: &str, index: u8) -> (picture: Picture)
        ensures
            is_picture(picture, album@, index as nat),
    {
        let mut file_name = album.to_owned();
        file_name.append(decimal_string(index as u64).as_str());
        file_name.append(".jpg");
        let mut path = "images/".to_owned();
        path.append(file_name.as_str());
        Picture { path, file_name }
    }

    /// Picks one of the `count` pictures of `album`, which are numbered from
    /// one. An album without pictures gives none.
    pub fn pick(album: &str, count: u8) -> (chosen: Option<Picture>)
        ensures
            chosen is None <==> count == 0,
            chosen matches Some(picture) ==> is_from_album(picture, album@, count as nat),
    {
        if count == 0 {
            None
        } else {
            let index = draw(1, count as u32) as u8;
            let picture = Pic::picture(album, index);
            assert(is_picture(picture, album@, index as nat));
            Some(picture)
        }
    }

    /// The album that `bimbo` sends from, and the number of its pictures, for
    /// a draw from 0 to 100.
    pub fn album_of_bimbo(draw: u32) -> (album: (&'static str, u8))
        ensures
            (album.0@, album.1) == bimbo_album(draw),
    {
        if draw < 90 {
            ("bimbo", 1)
        } else {
            ("demi", 4)
        }
    }

    /// Picks the picture that `bimbo` sends.
    pub fn pick_for_bimbo() -> (picture: Picture)
        ensures
            exists|drawn: u32|
                drawn <= 100 && is_from_album(
                    picture,
                    bimbo_album(drawn).0,
                    bimbo_album(drawn).1 as nat,
                ),
    {
        let drawn = draw(0, 100);
        let (album, count) = Pic::album_of_bimbo(drawn);
        let index = draw(1, count as u32) as u8;
        let picture = Pic::picture(album, index);
        assert(is_picture(picture, bimbo_album(drawn).0, index as nat));
        assert(is_from_album(picture, bimbo_album(drawn).0, bimbo_album(drawn).1 as nat));
        picture
    }
}

} // verus!
