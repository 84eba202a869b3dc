use miniz_oxide::inflate::decompress_to_vec_zlib;
use pdf_xobject::content::{resource_name, splice_form, splice_image, Operand, Operation, Real};
use pdf_xobject::document::{Document, EmbedError, ObjectId};
use pdf_xobject::stream::{ColorSpace, Filter, ImageInfo, Stream, XObjectInfo};
use pdf_xobject::xobject::{color_model, form, image, DecodedImage, PixelFormat};

fn op(name: &str, operands: Vec<Operand>) -> Operation {
    Operation { operator: name.as_bytes().to_vec(), operands }
}

fn num(v: i64) -> Real {
    Real::from_int(v)
}

fn page_a_b() -> Vec<Operation> {
    vec![
        op("BT", vec![]),
        op("Tj", vec![Operand::Name(b"Hello".to_vec())]),
    ]
}

fn is_op(o: &Operation, name: &str) -> bool {
    o.operator == name.as_bytes()
}

fn do_name(o: &Operation) -> Vec<u8> {
    assert!(is_op(o, "Do"));
    assert_eq!(o.operands.len(), 1);
    match &o.operands[0] {
        Operand::Name(n) => n.clone(),
        other => panic!("Do operand is not a name: {:?}", other),
    }
}

fn jpeg_file() -> Vec<u8> {
    vec![0xFF, 0xD8, 0xFF, 0xE0, 0x00, 0x10, b'J', b'F', b'I', b'F', 0x00, 0x01, 0xFF, 0xD9]
}

fn png_file() -> Vec<u8> {
    vec![0x89, b'P', b'N', b'G', 0x0D, 0x0A, 0x1A, 0x0A, 0, 0, 0, 13]
}

fn decoded(format: PixelFormat, bit_depth: u8, pixels: Vec<u8>) -> DecodedImage {
    DecodedImage { width: 2, height: 1, format, bit_depth, pixels }
}

fn find_page(doc: &Document, id: ObjectId) -> usize {
    doc.page_index(id).expect("page exists")
}

fn unit_form(content: Vec<u8>) -> Stream {
    let bbox = [num(0), num(0), num(100), num(50)];
    let matrix = [num(1), num(0), num(0), num(1), num(0), num(0)];
    form(bbox, matrix, content)
}

#[test]
fn insert_image() {
    let mut doc = Document::new();
    let page_id = doc.add_page(page_a_b());
    let img = image(decoded(PixelFormat::Rgb, 8, vec![1, 2, 3, 4, 5, 6]), jpeg_file());
    let res = doc.insert_image(page_id, img, (num(100), num(210)), (num(400), num(225)));
    assert_eq!(res, Ok(()));

    let idx = find_page(&doc, page_id);
    let ops = &doc.pages[idx].content;
    assert_eq!(ops.len(), 6);
    assert!(is_op(&ops[0], "BT"));
    assert!(is_op(&ops[1], "Tj"));
    assert!(is_op(&ops[2], "q"));
    assert!(ops[2].operands.is_empty());
    assert!(is_op(&ops[3], "cm"));
    let cm = &ops[3].operands;
    assert_eq!(cm.len(), 6);
    assert!(matches!(cm[0], Operand::Real(r) if r == num(400)));
    assert!(matches!(cm[1], Operand::Integer(0)));
    assert!(matches!(cm[2], Operand::Integer(0)));
    assert!(matches!(cm[3], Operand::Real(r) if r == num(225)));
    assert!(matches!(cm[4], Operand::Real(r) if r == num(100)));
    assert!(matches!(cm[5], Operand::Real(r) if r == num(210)));

    let (img_id, stream) = &doc.objects[0];
    let name = format!("X{}", img_id.0).into_bytes();
    assert_eq!(do_name(&ops[4]), name);
    assert!(is_op(&ops[5], "Q"));
    assert!(ops[5].operands.is_empty());
    assert_eq!(doc.pages[idx].xobjects, vec![(name, *img_id)]);
    assert_eq!(stream.filter, Some(Filter::DCTDecode));
    assert_eq!(stream.content, jpeg_file());
}

#[test]
fn color_model_table() {
    assert_eq!(color_model(PixelFormat::Gray, 8), (ColorSpace::DeviceGray, 8));
    assert_eq!(color_model(PixelFormat::Rgb, 8), (ColorSpace::DeviceRGB, 8));
    assert_eq!(color_model(PixelFormat::Palette, 4), (ColorSpace::Indexed, 4));
    assert_eq!(color_model(PixelFormat::GrayAlpha, 16), (ColorSpace::DeviceN, 16));
    assert_eq!(color_model(PixelFormat::RgbAlpha, 1), (ColorSpace::DeviceN, 1));
}

#[test]
fn color_model_ignores_image_content() {
    let a = image(DecodedImage { width: 3, height: 9, format: PixelFormat::GrayAlpha, bit_depth: 8, pixels: vec![0; 54] }, png_file());
    let b = image(DecodedImage { width: 1, height: 1, format: PixelFormat::GrayAlpha, bit_depth: 8, pixels: vec![7, 9] }, jpeg_file());
    match (a.info, b.info) {
        (XObjectInfo::Image(ia), XObjectInfo::Image(ib)) => {
            assert_eq!(ia.color_space, ColorSpace::DeviceN);
            assert_eq!(ia.color_space, ib.color_space);
            assert_eq!(ia.bits_per_component, ib.bits_per_component);
        }
        _ => panic!("not an image"),
    }
}

#[test]
fn jpeg_image_passes_through() {
    let img = image(decoded(PixelFormat::Gray, 8, vec![10, 20]), jpeg_file());
    assert_eq!(img.filter, Some(Filter::DCTDecode));
    assert_eq!(img.content, jpeg_file());
    match img.info {
        XObjectInfo::Image(info) => assert_eq!(
            info,
            ImageInfo { width: 2, height: 1, color_space: ColorSpace::DeviceGray, bits_per_component: 8 }
        ),
        _ => panic!("not an image"),
    }
}

#[test]
fn other_image_is_compressed_pixels() {
    let pixels: Vec<u8> = (0..=255u8).cycle().take(3000).collect();
    let img = image(decoded(PixelFormat::Rgb, 8, pixels.clone()), png_file());
    assert_eq!(img.filter, Some(Filter::FlateDecode));
    assert_ne!(img.content, pixels);
    assert_ne!(img.content, png_file());
    assert_eq!(decompress_to_vec_zlib(&img.content).unwrap(), pixels);
}

#[test]
fn short_file_is_not_jpeg() {
    let img = image(decoded(PixelFormat::Gray, 8, vec![1, 2]), vec![0xFF, 0xD8]);
    assert_eq!(img.filter, Some(Filter::FlateDecode));
    assert_eq!(decompress_to_vec_zlib(&img.content).unwrap(), vec![1, 2]);
}

#[test]
fn insert_form_object_wraps_content() {
    let mut doc = Document::new();
    let page_id = doc.add_page(page_a_b());
    let res = doc.insert_form_object(page_id, unit_form(b"0 0 m 10 10 l S".to_vec()));
    assert_eq!(res, Ok(()));
    let idx = find_page(&doc, page_id);
    let ops = &doc.pages[idx].content;
    assert_eq!(ops.len(), 5);
    assert!(is_op(&ops[0], "q"));
    assert!(is_op(&ops[1], "BT"));
    assert!(is_op(&ops[2], "Tj"));
    assert!(is_op(&ops[3], "Q"));
    let (form_id, _) = &doc.objects[0];
    let name = format!("X{}", form_id.0).into_bytes();
    assert_eq!(do_name(&ops[4]), name);
    assert_eq!(doc.pages[idx].xobjects, vec![(name, *form_id)]);
}

#[test]
fn placing_twice_is_not_idempotent() {
    let mut doc = Document::new();
    let page_id = doc.add_page(page_a_b());
    let jpeg = || image(decoded(PixelFormat::Rgb, 8, vec![0; 6]), jpeg_file());
    assert_eq!(doc.insert_image(page_id, jpeg(), (num(1), num(2)), (num(3), num(4))), Ok(()));
    assert_eq!(doc.insert_image(page_id, jpeg(), (num(1), num(2)), (num(3), num(4))), Ok(()));
    assert_eq!(doc.objects.len(), 2);
    assert_ne!(doc.objects[0].0, doc.objects[1].0);
    let ops = &doc.pages[0].content;
    assert_eq!(ops.len(), 10);
    let first = do_name(&ops[4]);
    let second = do_name(&ops[8]);
    assert_ne!(first, second);
    assert_eq!(doc.pages[0].xobjects.len(), 2);

    assert_eq!(doc.insert_form_object(page_id, unit_form(vec![])), Ok(()));
    assert_eq!(doc.insert_form_object(page_id, unit_form(vec![])), Ok(()));
    assert_eq!(doc.objects.len(), 4);
    let ops = &doc.pages[0].content;
    assert_eq!(ops.len(), 16);
    assert!(is_op(&ops[0], "q") && is_op(&ops[1], "q"));
    assert!(is_op(&ops[12], "Q") && is_op(&ops[14], "Q"));
    assert_ne!(do_name(&ops[13]), do_name(&ops[15]));
}

#[test]
fn form_is_always_compressed() {
    for content in [vec![], b"q".to_vec(), b"q Q".to_vec()] {
        let f = unit_form(content.clone());
        assert_eq!(f.filter, Some(Filter::FlateDecode));
        assert_ne!(f.content, content);
        assert_eq!(decompress_to_vec_zlib(&f.content).unwrap(), content);
        match f.info {
            XObjectInfo::Form(info) => {
                assert_eq!(info.bbox, [num(0), num(0), num(100), num(50)]);
                assert_eq!(info.matrix[0], num(1));
                assert_eq!(info.matrix[3], num(1));
            }
            _ => panic!("not a form"),
        }
    }
}

#[test]
fn missing_page_is_reported() {
    let mut doc = Document::new();
    let page_id = doc.add_page(page_a_b());
    let missing = (page_id.0 + 7, 0);
    let img = image(decoded(PixelFormat::Gray, 8, vec![1, 2]), jpeg_file());
    assert_eq!(doc.insert_image(missing, img, (num(0), num(0)), (num(1), num(1))), Err(EmbedError::PageNotFound));
    assert_eq!(doc.insert_form_object(missing, unit_form(vec![])), Err(EmbedError::PageNotFound));
    assert!(doc.objects.is_empty());
    assert_eq!(doc.max_id, 1);
    assert_eq!(doc.pages[0].content.len(), 2);
    assert!(doc.pages[0].xobjects.is_empty());
}

#[test]
fn resource_names_are_decimal() {
    assert_eq!(resource_name(0), b"X0".to_vec());
    assert_eq!(resource_name(7), b"X7".to_vec());
    assert_eq!(resource_name(10), b"X10".to_vec());
    assert_eq!(resource_name(1203), b"X1203".to_vec());
    assert_eq!(resource_name(u32::MAX), b"X4294967295".to_vec());
}

#[test]
fn object_ids_follow_max_id() {
    let mut doc = Document::new();
    let p = doc.add_page(vec![]);
    assert_eq!(p, (1, 0));
    let id = doc.add_object(unit_form(vec![]));
    assert_eq!(id, (2, 0));
    assert_eq!(doc.insert_form_object(p, unit_form(vec![])), Ok(()));
    assert_eq!(doc.objects[1].0, (3, 0));
    assert_eq!(doc.pages[0].xobjects[0].0, b"X3".to_vec());
}

#[test]
fn splicing_on_empty_content() {
    let mut ops: Vec<Operation> = vec![];
    splice_image(&mut ops, &b"X1".to_vec(), (num(5), num(6)), (num(7), num(8)));
    assert_eq!(ops.len(), 4);
    assert!(is_op(&ops[0], "q") && is_op(&ops[1], "cm") && is_op(&ops[3], "Q"));
    assert_eq!(do_name(&ops[2]), b"X1".to_vec());

    let mut ops: Vec<Operation> = vec![];
    splice_form(&mut ops, &b"X2".to_vec());
    assert_eq!(ops.len(), 3);
    assert!(is_op(&ops[0], "q") && is_op(&ops[1], "Q"));
    assert_eq!(do_name(&ops[2]), b"X2".to_vec());
}

#[test]
fn compress_keeps_an_existing_filter() {
    let mut s = Stream::new(unit_form(vec![]).info, vec![1, 2, 3]);
    s.filter = Some(Filter::DCTDecode);
    s.compress();
    assert_eq!(s.content, vec![1, 2, 3]);
    assert_eq!(s.filter, Some(Filter::DCTDecode));
}
