use odilf_site::pics::{
    album_url, download_url, get_cache_file, image_path, output_name, photo_from_asset,
    photos_of_album, reuse_cache,
    status_is_success, stem, temporary_file, AlbumResponse, AssetResponse, ExifInfo, Photo,
};

fn photo(name: &str) -> Photo {
    Photo {
        image_path: format!("/static/pics/{name}.webp"),
        caption: String::from("caption"),
        filename: format!("{name}.jpg"),
    }
}

fn names(photos: &[Photo]) -> Vec<&str> {
    photos.iter().map(|photo| photo.filename.as_str()).collect()
}

#[test]
fn cache_file_and_addresses() {
    assert_eq!(get_cache_file("abc-123"), ".immich_cache/abc-123.json");
    assert_eq!(album_url("https://photos.example", "abc"), "https://photos.example/api/albums/abc");
    assert_eq!(
        download_url("https://photos.example", "a1"),
        "https://photos.example/api/assets/a1/original"
    );
    assert_eq!(temporary_file("a1"), ".tmp_a1");
}

#[test]
fn statuses_from_200_to_299_are_successes() {
    assert!(!status_is_success(199));
    assert!(status_is_success(200));
    assert!(status_is_success(204));
    assert!(status_is_success(299));
    assert!(!status_is_success(300));
    assert!(!status_is_success(404));
}

#[test]
fn stems_of_file_names() {
    assert_eq!(stem("IMG_0001.HEIC"), "IMG_0001");
    assert_eq!(stem("archive.tar.gz"), "archive.tar");
    assert_eq!(stem("noextension"), "noextension");
    assert_eq!(stem(".hidden"), ".hidden");
    assert_eq!(stem("album/2024/shot.jpeg"), "shot");
    assert_eq!(stem(""), "image");
    assert_eq!(stem(".."), "image");
    assert_eq!(stem("."), "image");
    assert_eq!(stem("/"), "image");
    assert_eq!(stem("dir/"), "dir");
    assert_eq!(stem("bin/"), "bin");
    assert_eq!(stem("foo.txt/."), "foo");
    assert_eq!(stem("album//shot.jpeg/./"), "shot");
    assert_eq!(stem("album/.."), "image");
    assert_eq!(stem("./"), "image");
    assert_eq!(stem("..."), "..");
    assert_eq!(stem("name."), "name");
    assert_eq!(image_path("IMG_0001.HEIC"), "/static/pics/IMG_0001.webp");
    assert_eq!(image_path(""), "/static/pics/image.webp");
    assert_eq!(image_path("bin/"), "/static/pics/bin.webp");
    assert_eq!(image_path("foo.txt/."), "/static/pics/foo.webp");
    assert_eq!(image_path("."), "/static/pics/image.webp");
}

fn stem_of_the_path(name: &str) -> String {
    std::path::Path::new(name)
        .file_stem()
        .and_then(|stem| stem.to_str())
        .unwrap_or("image")
        .to_string()
}

#[test]
fn stems_are_those_of_paths() {
    let alphabet = ['a', 'b', '.', '/'];
    let mut names = vec![String::new()];
    let mut from = 0;
    for _ in 0..7 {
        let upto = names.len();
        for i in from..upto {
            for c in alphabet {
                let mut longer = names[i].clone();
                longer.push(c);
                names.push(longer);
            }
        }
        from = upto;
    }
    assert_eq!(names.len(), 21845);
    for name in &names {
        assert_eq!(stem(name), stem_of_the_path(name), "{name:?}");
    }
}

#[test]
fn photos_are_made_of_assets() {
    let album = AlbumResponse {
        assets: vec![
            AssetResponse {
                id: String::from("a1"),
                original_file_name: String::from("sea.jpg"),
                exif_info: Some(ExifInfo { description: Some(String::from("The sea")) }),
            },
            AssetResponse {
                id: String::from("a2"),
                original_file_name: String::from("sky.png"),
                exif_info: Some(ExifInfo { description: None }),
            },
            AssetResponse {
                id: String::from("a3"),
                original_file_name: String::from("land.heic"),
                exif_info: None,
            },
        ],
    };
    let photos = photos_of_album(&album);
    assert_eq!(photos.len(), 3);
    assert_eq!(photo_from_asset(&album.assets[0]).image_path, "/static/pics/sea.webp");
    assert_eq!(output_name("sea.jpg"), "sea.webp");
    assert_eq!(photos[0].image_path, "/static/pics/sea.webp");
    assert_eq!(photos[0].caption, "The sea");
    assert_eq!(photos[0].filename, "sea.jpg");
    assert_eq!(photos[1].caption, "");
    assert_eq!(photos[2].caption, "");
    assert_eq!(photos[2].image_path, "/static/pics/land.webp");
}

#[test]
fn cache_with_every_image_at_hand_is_used_again() {
    let reused = reuse_cache(Some(vec![photo("a"), photo("b")]), &vec![true, true]).unwrap();
    assert_eq!(names(&reused), vec!["a.jpg", "b.jpg"]);
    assert_eq!(reused[0].caption, "caption");
    let empty = reuse_cache(Some(Vec::new()), &Vec::new()).unwrap();
    assert!(empty.is_empty());
}

#[test]
fn cache_that_misses_an_image_is_dropped() {
    assert!(reuse_cache(Some(vec![photo("a"), photo("b")]), &vec![true, false]).is_none());
    assert!(reuse_cache(Some(vec![photo("a"), photo("b")]), &vec![true]).is_none());
    assert!(reuse_cache(None, &vec![true, true]).is_none());
}
