//! The reference corpus of mangled symbols, exercised end to end: every
//! entry's decode outcome is pinned exactly.
//!
//! Each entry pairs a mangled symbol with the declaration a full-featured
//! reference demangler prints for it. This decoder implements the grammar
//! subset its model describes: part of the corpus decodes to the very
//! reference string; part decodes to the same declaration without the
//! access, calling-convention and pointer-width markers that the core
//! printer deliberately leaves out; the rest lies outside the subset and
//! stops at one diagnosed failure. (Several corpus entries pair one
//! symbol with two different reference strings, so no decoder can equal
//! every reference; the decoded outcome asserted here is single-valued.)
use msvc_demangle::demangle;
use msvc_demangle::error::ErrorKind;

#[test]
fn wine_tests() {
    // decoded exactly as the reference demangler prints it
    let exact: Vec<(&str, &str)> = vec![
        ("??0bad_cast@@AAE@PBQBD@Z",
         "bad_cast::bad_cast(char const * const *)"),
        ("??0bad_cast@@QAE@ABQBD@Z",
         "bad_cast::bad_cast(char const * const &)"),
        ("??0bad_cast@@QAE@ABV0@@Z",
         "bad_cast::bad_cast(class bad_cast const &)"),
        ("??0streambuf@@QAE@ABV0@@Z",
         "streambuf::streambuf(class streambuf const &)"),
        ("??0strstreambuf@@QAE@ABV0@@Z",
         "strstreambuf::strstreambuf(class strstreambuf const &)"),
        ("??0strstreambuf@@QAE@H@Z",
         "strstreambuf::strstreambuf(int)"),
        ("??0strstreambuf@@QAE@PADH0@Z",
         "strstreambuf::strstreambuf(char *,int,char *)"),
        ("??0strstreambuf@@QAE@PAEH0@Z",
         "strstreambuf::strstreambuf(unsigned char *,int,unsigned char *)"),
        ("??0strstreambuf@@QAE@XZ",
         "strstreambuf::strstreambuf(void)"),
        ("??0aa$_3a@@QAE@XZ",
         "aa$_3a::aa$_3a(void)"),
    ];
    // decoded to the same declaration, without the access, convention and
    // width markers of the reference
    let printed: Vec<(&str, &str, &str)> = vec![
        ("??0strstreambuf@@QAE@P6APAXJ@ZP6AXPAX@Z@Z",
         "strstreambuf::strstreambuf(void * (__cdecl*)(long),void (__cdecl*)(void *))",
         "strstreambuf::strstreambuf(void *(*)(long),void(*)(void *))"),
        ("??1__non_rtti_object@@UAE@XZ",
         "public: virtual __thiscall __non_rtti_object::~__non_rtti_object(void)",
         "__non_rtti_object::~__non_rtti_object(void)"),
        ("??4istream_withassign@@QAEAAV0@ABV0@@Z",
         "public: class istream_withassign & __thiscall istream_withassign::operator=(class istream_withassign const &)",
         "class istream_withassign & istream_withassign::operator=(class istream_withassign const &)"),
        ("??4istream_withassign@@QAEAAVistream@@ABV1@@Z",
         "public: class istream & __thiscall istream_withassign::operator=(class istream const &)",
         "class istream & istream_withassign::operator=(class istream const &)"),
        ("??4istream_withassign@@QAEAAVistream@@PAVstreambuf@@@Z",
         "public: class istream & __thiscall istream_withassign::operator=(class streambuf *)",
         "class istream & istream_withassign::operator=(class streambuf *)"),
        ("?abs@std@@YAMABV?$complex@M@1@@Z",
         "float __cdecl std::abs(class std::complex<float> const &)",
         "float std::abs(class std::complex<float>const &)"),
        ("?abs@std@@YANABV?$complex@N@1@@Z",
         "double __cdecl std::abs(class std::complex<double> const &)",
         "double std::abs(class std::complex<double>const &)"),
        ("?abs@std@@YAOABV?$complex@O@1@@Z",
         "long double __cdecl std::abs(class std::complex<long double> const &)",
         "long double std::abs(class std::complex<long double>const &)"),
        ("?cin@std@@3V?$basic_istream@DU?$char_traits@D@std@@@1@A",
         "class std::basic_istream<char,struct std::char_traits<char> > std::cin",
         "class std::basic_istream<char,struct std::char_traits<char>>std::cin"),
        ("?_query_new_handler@@YAP6AHI@ZXZ",
         "int (__cdecl*__cdecl _query_new_handler(void))(unsigned int)",
         "int(* _query_new_handler(void)"),
        ("?register_callback@ios_base@std@@QAEXP6AXW4event@12@AAV12@H@ZH@Z",
         "public: void __thiscall std::ios_base::register_callback(void (__cdecl*)(enum std::ios_base::event,class std::ios_base &,int),int)",
         "void std::ios_base::register_callback(void(*)(enum std::ios_base::event,class std::ios_base &,int),int)"),
        ("?set_new_handler@@YAP6AXXZP6AXXZ@Z",
         "void (__cdecl*__cdecl set_new_handler(void (__cdecl*)(void)))(void)",
         "void(* set_new_handler(void(*)(void))"),
        ("??_U@YAPAXI@Z",
         "void * __cdecl operator new[](unsigned int)",
         "void * operator new[](unsigned int)"),
        ("??_V@YAXPAX@Z",
         "void __cdecl operator delete[](void *)",
         "void operator delete[](void *)"),
        ("?aaa@@YAHAAUbbb@@@Z",
         "int __cdecl aaa(struct bbb &)",
         "int aaa(struct bbb &)"),
        ("?aaa@@YAHPAUbbb@@@Z",
         "int __cdecl aaa(struct bbb *)",
         "int aaa(struct bbb *)"),
        ("?aaa@@YAHQAUbbb@@@Z",
         "int __cdecl aaa(struct bbb * const)",
         "int aaa(struct bbb * const)"),
        ("??0aa.a@@QAE@XZ",
         "??0aa.a@@QAE@XZ",
         "aa.a::aa.a(void)"),
        ("??$ccccc@PAVaaa@@@bar@bb@foo@@DGPAV0@PAV0@PAVee@@IPAPAVaaa@@1@Z",
         "private: static class bar * __stdcall foo::bb::bar::ccccc<class aaa *>(class bar *,class ee *,unsigned int,class aaa * *,class ee *)",
         "class aaa * foo::bb::bar::ccccc<class aaa *>(class aaa *,class ee *,unsigned int,class aaa * *,class ee *)"),
        ("?f@T@@QAEHQCY1BE@BO@D@Z",
         "public: int __thiscall T::f(char (volatile * const)[20][30])",
         "int T::f(char(* const)[20][30])"),
        ("?f@T@@QAEHQAY2BE@BO@CI@D@Z",
         "public: int __thiscall T::f(char (* const)[20][30][40])",
         "int T::f(char(* const)[20][30][40])"),
        ("?f@T@@QAEHQAY1BE@BO@$$CBD@Z",
         "public: int __thiscall T::f(char const (* const)[20][30])",
         "int T::f(char const const(* const)[20][30])"),
        ("?swprintf@@YAHPAGIPBGZZ",
         "int __cdecl swprintf(unsigned short *,unsigned int,unsigned short const *,...)",
         "int swprintf(unsigned short *,unsigned int,unsigned short const *)"),
        ("?vswprintf@@YAHPAGIPBGPAD@Z",
         "int __cdecl vswprintf(unsigned short *,unsigned int,unsigned short const *,char *)",
         "int vswprintf(unsigned short *,unsigned int,unsigned short const *,char *)"),
        ("?vswprintf@@YAHPA_WIPB_WPAD@Z",
         "int __cdecl vswprintf(wchar_t *,unsigned int,wchar_t const *,char *)",
         "int vswprintf(wchar_t *,unsigned int,wchar_t const *,char *)"),
        ("?swprintf@@YAHPA_WIPB_WZZ",
         "int __cdecl swprintf(wchar_t *,unsigned int,wchar_t const *,...)",
         "int swprintf(wchar_t *,unsigned int,wchar_t const *)"),
        ("?_Doraise@bad_cast@std@@MEBAXXZ",
         "protected: virtual void __cdecl std::bad_cast::_Doraise(void)const __ptr64",
         "void std::bad_cast::_Doraise(void)const"),
        ("?_Doraise@bad_cast@std@@MEBAXXZ",
         "protected: virtual void __cdecl std::bad_cast::_Doraise(void)",
         "void std::bad_cast::_Doraise(void)const"),
    ];
    // outside the decoded grammar subset: the decode stops at this failure
    let failing: Vec<(&str, &str, ErrorKind)> = vec![
        ("??0?$Klass@_N@std@@QEAA@AEBV01@@Z",
         "std::Klass<bool>::Klass<bool>(class std::Klass<bool> const &)",
         ErrorKind::UnknownFunctionClassByte),
        ("??0bad_alloc@std@@QAE@ABV01@@Z",
         "std::bad_alloc::bad_alloc(class std::bad_alloc const &)",
         ErrorKind::UnknownPrimitiveTypeByte),
        ("??0bad_alloc@std@@QAE@PBD@Z",
         "std::bad_alloc::bad_alloc(char const *)",
         ErrorKind::UnknownPrimitiveTypeByte),
        ("??0bad_exception@std@@QAE@ABV01@@Z",
         "std::bad_exception::bad_exception(class std::bad_exception const &)",
         ErrorKind::UnknownPrimitiveTypeByte),
        ("??0bad_exception@std@@QAE@PBD@Z",
         "std::bad_exception::bad_exception(char const *)",
         ErrorKind::UnknownPrimitiveTypeByte),
        ("??0bad_exception@std@@QAE@PBD@Z",
         "std::bad_exception::bad_exception(char const *)",
         ErrorKind::UnknownPrimitiveTypeByte),
        ("??0?$basic_filebuf@DU?$char_traits@D@std@@@std@@QAE@ABV01@@Z",
         "std::basic_filebuf<char,struct std::char_traits<char> >::basic_filebuf<char,struct std::char_traits<char> >(class std::basic_filebuf<char,struct std::char_traits<char> > const &)",
         ErrorKind::UnknownFunctionClassByte),
        ("??0?$basic_filebuf@DU?$char_traits@D@std@@@std@@QAE@ABV01@@Z",
         "std::basic_filebuf<char,struct std::char_traits<char> >::basic_filebuf<char,struct std::char_traits<char> >(class std::basic_filebuf<char,struct std::char_traits<char> > const &)",
         ErrorKind::UnknownFunctionClassByte),
        ("??0?$basic_filebuf@DU?$char_traits@D@std@@@std@@QAE@PAU_iobuf@@@Z",
         "std::basic_filebuf<char,struct std::char_traits<char> >::basic_filebuf<char,struct std::char_traits<char> >(struct _iobuf *)",
         ErrorKind::UnknownFunctionClassByte),
        ("??0?$basic_filebuf@DU?$char_traits@D@std@@@std@@QAE@W4_Uninitialized@1@@Z",
         "std::basic_filebuf<char,struct std::char_traits<char> >::basic_filebuf<char,struct std::char_traits<char> >(enum std::_Uninitialized)",
         ErrorKind::UnknownFunctionClassByte),
        ("??0?$basic_filebuf@GU?$char_traits@G@std@@@std@@QAE@ABV01@@Z",
         "std::basic_filebuf<unsigned short,struct std::char_traits<unsigned short> >::basic_filebuf<unsigned short,struct std::char_traits<unsigned short> >(class std::basic_filebuf<unsigned short,struct std::char_traits<unsigned short> > const &)",
         ErrorKind::UnknownFunctionClassByte),
        ("??0?$basic_filebuf@GU?$char_traits@G@std@@@std@@QAE@PAU_iobuf@@@Z",
         "std::basic_filebuf<unsigned short,struct std::char_traits<unsigned short> >::basic_filebuf<unsigned short,struct std::char_traits<unsigned short> >(struct _iobuf *)",
         ErrorKind::UnknownFunctionClassByte),
        ("??0?$basic_filebuf@GU?$char_traits@G@std@@@std@@QAE@W4_Uninitialized@1@@Z",
         "std::basic_filebuf<unsigned short,struct std::char_traits<unsigned short> >::basic_filebuf<unsigned short,struct std::char_traits<unsigned short> >(enum std::_Uninitialized)",
         ErrorKind::UnknownFunctionClassByte),
        ("??0?$basic_stringstream@DU?$char_traits@D@std@@V?$allocator@D@2@@std@@QAE@ABV01@@Z",
         "std::basic_stringstream<char,struct std::char_traits<char>,class std::allocator<char> >::basic_stringstream<char,struct std::char_traits<char>,class std::allocator<char> >(class std::basic_stringstream<char,struct std::char_traits<char>,class std::allocator<char> > const &)",
         ErrorKind::InvalidBackReferenceIndex),
        ("??0?$basic_stringstream@DU?$char_traits@D@std@@V?$allocator@D@2@@std@@QAE@ABV?$basic_string@DU?$char_traits@D@std@@V?$allocator@D@2@@1@H@Z",
         "std::basic_stringstream<char,struct std::char_traits<char>,class std::allocator<char> >::basic_stringstream<char,struct std::char_traits<char>,class std::allocator<char> >(class std::basic_string<char,struct std::char_traits<char>,class std::allocator<char> > const &,int)",
         ErrorKind::InvalidBackReferenceIndex),
        ("??0?$basic_stringstream@DU?$char_traits@D@std@@V?$allocator@D@2@@std@@QAE@H@Z",
         "std::basic_stringstream<char,struct std::char_traits<char>,class std::allocator<char> >::basic_stringstream<char,struct std::char_traits<char>,class std::allocator<char> >(int)",
         ErrorKind::InvalidBackReferenceIndex),
        ("??0?$basic_stringstream@GU?$char_traits@G@std@@V?$allocator@G@2@@std@@QAE@ABV01@@Z",
         "std::basic_stringstream<unsigned short,struct std::char_traits<unsigned short>,class std::allocator<unsigned short> >::basic_stringstream<unsigned short,struct std::char_traits<unsigned short>,class std::allocator<unsigned short> >(class std::basic_stringstream<unsigned short,struct std::char_traits<unsigned short>,class std::allocator<unsigned short> > const &)",
         ErrorKind::InvalidBackReferenceIndex),
        ("??0?$basic_stringstream@GU?$char_traits@G@std@@V?$allocator@G@2@@std@@QAE@ABV?$basic_string@GU?$char_traits@G@std@@V?$allocator@G@2@@1@H@Z",
         "std::basic_stringstream<unsigned short,struct std::char_traits<unsigned short>,class std::allocator<unsigned short> >::basic_stringstream<unsigned short,struct std::char_traits<unsigned short>,class std::allocator<unsigned short> >(class std::basic_string<unsigned short,struct std::char_traits<unsigned short>,class std::allocator<unsigned short> > const &,int)",
         ErrorKind::InvalidBackReferenceIndex),
        ("??0?$basic_stringstream@GU?$char_traits@G@std@@V?$allocator@G@2@@std@@QAE@H@Z",
         "std::basic_stringstream<unsigned short,struct std::char_traits<unsigned short>,class std::allocator<unsigned short> >::basic_stringstream<unsigned short,struct std::char_traits<unsigned short>,class std::allocator<unsigned short> >(int)",
         ErrorKind::InvalidBackReferenceIndex),
        ("??0?$num_get@DV?$istreambuf_iterator@DU?$char_traits@D@std@@@std@@@std@@QAE@ABV_Locinfo@1@I@Z",
         "std::num_get<char,class std::istreambuf_iterator<char,struct std::char_traits<char> > >::num_get<char,class std::istreambuf_iterator<char,struct std::char_traits<char> > >(class std::_Locinfo const &,unsigned int)",
         ErrorKind::UnknownFunctionClassByte),
        ("??0?$num_get@DV?$istreambuf_iterator@DU?$char_traits@D@std@@@std@@@std@@QAE@I@Z",
         "std::num_get<char,class std::istreambuf_iterator<char,struct std::char_traits<char> > >::num_get<char,class std::istreambuf_iterator<char,struct std::char_traits<char> > >(unsigned int)",
         ErrorKind::UnknownFunctionClassByte),
        ("??0?$num_get@GV?$istreambuf_iterator@GU?$char_traits@G@std@@@std@@@std@@QAE@ABV_Locinfo@1@I@Z",
         "std::num_get<unsigned short,class std::istreambuf_iterator<unsigned short,struct std::char_traits<unsigned short> > >::num_get<unsigned short,class std::istreambuf_iterator<unsigned short,struct std::char_traits<unsigned short> > >(class std::_Locinfo const &,unsigned int)",
         ErrorKind::UnknownFunctionClassByte),
        ("??0?$num_get@GV?$istreambuf_iterator@GU?$char_traits@G@std@@@std@@@std@@QAE@I@Z",
         "std::num_get<unsigned short,class std::istreambuf_iterator<unsigned short,struct std::char_traits<unsigned short> > >::num_get<unsigned short,class std::istreambuf_iterator<unsigned short,struct std::char_traits<unsigned short> > >(unsigned int)",
         ErrorKind::UnknownFunctionClassByte),
        ("??1__non_rtti_object@std@@UAE@XZ",
         "public: virtual __thiscall std::__non_rtti_object::~__non_rtti_object(void)",
         ErrorKind::UnknownPrimitiveTypeByte),
        ("??1?$num_get@DV?$istreambuf_iterator@DU?$char_traits@D@std@@@std@@@std@@UAE@XZ",
         "public: virtual __thiscall std::num_get<char,class std::istreambuf_iterator<char,struct std::char_traits<char> > >::~num_get<char,class std::istreambuf_iterator<char,struct std::char_traits<char> > >(void)",
         ErrorKind::UnknownFunctionClassByte),
        ("??1?$num_get@GV?$istreambuf_iterator@GU?$char_traits@G@std@@@std@@@std@@UAE@XZ",
         "public: virtual __thiscall std::num_get<unsigned short,class std::istreambuf_iterator<unsigned short,struct std::char_traits<unsigned short> > >::~num_get<unsigned short,class std::istreambuf_iterator<unsigned short,struct std::char_traits<unsigned short> > >(void)",
         ErrorKind::UnknownFunctionClassByte),
        ("??5std@@YAAAV?$basic_istream@DU?$char_traits@D@std@@@0@AAV10@AAC@Z",
         "class std::basic_istream<char,struct std::char_traits<char> > & __cdecl std::operator>>(class std::basic_istream<char,struct std::char_traits<char> > &,signed char &)",
         ErrorKind::InvalidBackReferenceIndex),
        ("??5std@@YAAAV?$basic_istream@DU?$char_traits@D@std@@@0@AAV10@AAD@Z",
         "class std::basic_istream<char,struct std::char_traits<char> > & __cdecl std::operator>>(class std::basic_istream<char,struct std::char_traits<char> > &,char &)",
         ErrorKind::InvalidBackReferenceIndex),
        ("??5std@@YAAAV?$basic_istream@DU?$char_traits@D@std@@@0@AAV10@AAE@Z",
         "class std::basic_istream<char,struct std::char_traits<char> > & __cdecl std::operator>>(class std::basic_istream<char,struct std::char_traits<char> > &,unsigned char &)",
         ErrorKind::InvalidBackReferenceIndex),
        ("??6?$basic_ostream@GU?$char_traits@G@std@@@std@@QAEAAV01@P6AAAVios_base@1@AAV21@@Z@Z",
         "public: class std::basic_ostream<unsigned short,struct std::char_traits<unsigned short> > & __thiscall std::basic_ostream<unsigned short,struct std::char_traits<unsigned short> >::operator<<(class std::ios_base & (__cdecl*)(class std::ios_base &))",
         ErrorKind::UnknownFunctionClassByte),
        ("??6?$basic_ostream@GU?$char_traits@G@std@@@std@@QAEAAV01@PAV?$basic_streambuf@GU?$char_traits@G@std@@@1@@Z",
         "public: class std::basic_ostream<unsigned short,struct std::char_traits<unsigned short> > & __thiscall std::basic_ostream<unsigned short,struct std::char_traits<unsigned short> >::operator<<(class std::basic_streambuf<unsigned short,struct std::char_traits<unsigned short> > *)",
         ErrorKind::UnknownFunctionClassByte),
        ("??6?$basic_ostream@GU?$char_traits@G@std@@@std@@QAEAAV01@PBX@Z",
         "public: class std::basic_ostream<unsigned short,struct std::char_traits<unsigned short> > & __thiscall std::basic_ostream<unsigned short,struct std::char_traits<unsigned short> >::operator<<(void const *)",
         ErrorKind::UnknownFunctionClassByte),
        ("??_8?$basic_fstream@DU?$char_traits@D@std@@@std@@7B?$basic_ostream@DU?$char_traits@D@std@@@1@@",
         "const std::basic_fstream<char,struct std::char_traits<char> >::`vbtable'{for `std::basic_ostream<char,struct std::char_traits<char> >'}",
         ErrorKind::UnknownOperatorCode),
        ("??_8?$basic_fstream@GU?$char_traits@G@std@@@std@@7B?$basic_istream@GU?$char_traits@G@std@@@1@@",
         "const std::basic_fstream<unsigned short,struct std::char_traits<unsigned short> >::`vbtable'{for `std::basic_istream<unsigned short,struct std::char_traits<unsigned short> >'}",
         ErrorKind::UnknownOperatorCode),
        ("??_8?$basic_fstream@GU?$char_traits@G@std@@@std@@7B?$basic_ostream@GU?$char_traits@G@std@@@1@@",
         "const std::basic_fstream<unsigned short,struct std::char_traits<unsigned short> >::`vbtable'{for `std::basic_ostream<unsigned short,struct std::char_traits<unsigned short> >'}",
         ErrorKind::UnknownOperatorCode),
        ("??9std@@YA_NPBDABV?$basic_string@DU?$char_traits@D@std@@V?$allocator@D@2@@0@@Z",
         "bool __cdecl std::operator!=(char const *,class std::basic_string<char,struct std::char_traits<char>,class std::allocator<char> > const &)",
         ErrorKind::InvalidBackReferenceIndex),
        ("??9std@@YA_NPBGABV?$basic_string@GU?$char_traits@G@std@@V?$allocator@G@2@@0@@Z",
         "bool __cdecl std::operator!=(unsigned short const *,class std::basic_string<unsigned short,struct std::char_traits<unsigned short>,class std::allocator<unsigned short> > const &)",
         ErrorKind::InvalidBackReferenceIndex),
        ("??A?$basic_string@DU?$char_traits@D@std@@V?$allocator@D@2@@std@@QAEAADI@Z",
         "public: char & __thiscall std::basic_string<char,struct std::char_traits<char>,class std::allocator<char> >::operator[](unsigned int)",
         ErrorKind::InvalidBackReferenceIndex),
        ("??A?$basic_string@DU?$char_traits@D@std@@V?$allocator@D@2@@std@@QBEABDI@Z",
         "public: char const & __thiscall std::basic_string<char,struct std::char_traits<char>,class std::allocator<char> >::operator[](unsigned int)const ",
         ErrorKind::InvalidBackReferenceIndex),
        ("??A?$basic_string@GU?$char_traits@G@std@@V?$allocator@G@2@@std@@QAEAAGI@Z",
         "public: unsigned short & __thiscall std::basic_string<unsigned short,struct std::char_traits<unsigned short>,class std::allocator<unsigned short> >::operator[](unsigned int)",
         ErrorKind::InvalidBackReferenceIndex),
        ("??A?$basic_string@GU?$char_traits@G@std@@V?$allocator@G@2@@std@@QBEABGI@Z",
         "public: unsigned short const & __thiscall std::basic_string<unsigned short,struct std::char_traits<unsigned short>,class std::allocator<unsigned short> >::operator[](unsigned int)const ",
         ErrorKind::InvalidBackReferenceIndex),
        ("?do_get@?$num_get@DV?$istreambuf_iterator@DU?$char_traits@D@std@@@std@@@std@@MBE?AV?$istreambuf_iterator@DU?$char_traits@D@std@@@2@V32@0AAVios_base@2@AAHAAG@Z",
         "protected: virtual class std::istreambuf_iterator<char,struct std::char_traits<char> > __thiscall std::num_get<char,class std::istreambuf_iterator<char,struct std::char_traits<char> > >::do_get(class std::istreambuf_iterator<char,struct std::char_traits<char> >,class std::istreambuf_iterator<char,struct std::char_traits<char> >,class std::ios_base &,int &,unsigned short &)const ",
         ErrorKind::InvalidBackReferenceIndex),
        ("?do_get@?$num_get@DV?$istreambuf_iterator@DU?$char_traits@D@std@@@std@@@std@@MBE?AV?$istreambuf_iterator@DU?$char_traits@D@std@@@2@V32@0AAVios_base@2@AAHAAI@Z",
         "protected: virtual class std::istreambuf_iterator<char,struct std::char_traits<char> > __thiscall std::num_get<char,class std::istreambuf_iterator<char,struct std::char_traits<char> > >::do_get(class std::istreambuf_iterator<char,struct std::char_traits<char> >,class std::istreambuf_iterator<char,struct std::char_traits<char> >,class std::ios_base &,int &,unsigned int &)const ",
         ErrorKind::InvalidBackReferenceIndex),
        ("?do_get@?$num_get@DV?$istreambuf_iterator@DU?$char_traits@D@std@@@std@@@std@@MBE?AV?$istreambuf_iterator@DU?$char_traits@D@std@@@2@V32@0AAVios_base@2@AAHAAJ@Z",
         "protected: virtual class std::istreambuf_iterator<char,struct std::char_traits<char> > __thiscall std::num_get<char,class std::istreambuf_iterator<char,struct std::char_traits<char> > >::do_get(class std::istreambuf_iterator<char,struct std::char_traits<char> >,class std::istreambuf_iterator<char,struct std::char_traits<char> >,class std::ios_base &,int &,long &)const ",
         ErrorKind::InvalidBackReferenceIndex),
        ("?do_get@?$num_get@DV?$istreambuf_iterator@DU?$char_traits@D@std@@@std@@@std@@MBE?AV?$istreambuf_iterator@DU?$char_traits@D@std@@@2@V32@0AAVios_base@2@AAHAAK@Z",
         "protected: virtual class std::istreambuf_iterator<char,struct std::char_traits<char> > __thiscall std::num_get<char,class std::istreambuf_iterator<char,struct std::char_traits<char> > >::do_get(class std::istreambuf_iterator<char,struct std::char_traits<char> >,class std::istreambuf_iterator<char,struct std::char_traits<char> >,class std::ios_base &,int &,unsigned long &)const ",
         ErrorKind::InvalidBackReferenceIndex),
        ("?do_get@?$num_get@DV?$istreambuf_iterator@DU?$char_traits@D@std@@@std@@@std@@MBE?AV?$istreambuf_iterator@DU?$char_traits@D@std@@@2@V32@0AAVios_base@2@AAHAAM@Z",
         "protected: virtual class std::istreambuf_iterator<char,struct std::char_traits<char> > __thiscall std::num_get<char,class std::istreambuf_iterator<char,struct std::char_traits<char> > >::do_get(class std::istreambuf_iterator<char,struct std::char_traits<char> >,class std::istreambuf_iterator<char,struct std::char_traits<char> >,class std::ios_base &,int &,float &)const ",
         ErrorKind::InvalidBackReferenceIndex),
        ("?seekg@?$basic_istream@DU?$char_traits@D@std@@@std@@QAEAAV12@JW4seekdir@ios_base@2@@Z",
         "public: class std::basic_istream<char,struct std::char_traits<char> > & __thiscall std::basic_istream<char,struct std::char_traits<char> >::seekg(long,enum std::ios_base::seekdir)",
         ErrorKind::InvalidBackReferenceIndex),
        ("?seekg@?$basic_istream@DU?$char_traits@D@std@@@std@@QAEAAV12@V?$fpos@H@2@@Z",
         "public: class std::basic_istream<char,struct std::char_traits<char> > & __thiscall std::basic_istream<char,struct std::char_traits<char> >::seekg(class std::fpos<int>)",
         ErrorKind::InvalidBackReferenceIndex),
        ("?seekg@?$basic_istream@GU?$char_traits@G@std@@@std@@QAEAAV12@JW4seekdir@ios_base@2@@Z",
         "public: class std::basic_istream<unsigned short,struct std::char_traits<unsigned short> > & __thiscall std::basic_istream<unsigned short,struct std::char_traits<unsigned short> >::seekg(long,enum std::ios_base::seekdir)",
         ErrorKind::InvalidBackReferenceIndex),
        ("?seekg@?$basic_istream@GU?$char_traits@G@std@@@std@@QAEAAV12@V?$fpos@H@2@@Z",
         "public: class std::basic_istream<unsigned short,struct std::char_traits<unsigned short> > & __thiscall std::basic_istream<unsigned short,struct std::char_traits<unsigned short> >::seekg(class std::fpos<int>)",
         ErrorKind::InvalidBackReferenceIndex),
        ("?seekoff@?$basic_filebuf@DU?$char_traits@D@std@@@std@@MAE?AV?$fpos@H@2@JW4seekdir@ios_base@2@H@Z",
         "protected: virtual class std::fpos<int> __thiscall std::basic_filebuf<char,struct std::char_traits<char> >::seekoff(long,enum std::ios_base::seekdir,int)",
         ErrorKind::InvalidBackReferenceIndex),
        ("?seekoff@?$basic_filebuf@GU?$char_traits@G@std@@@std@@MAE?AV?$fpos@H@2@JW4seekdir@ios_base@2@H@Z",
         "protected: virtual class std::fpos<int> __thiscall std::basic_filebuf<unsigned short,struct std::char_traits<unsigned short> >::seekoff(long,enum std::ios_base::seekdir,int)",
         ErrorKind::InvalidBackReferenceIndex),
        ("?str@?$basic_istringstream@DU?$char_traits@D@std@@V?$allocator@D@2@@std@@QAEXABV?$basic_string@DU?$char_traits@D@std@@V?$allocator@D@2@@2@@Z",
         "public: void __thiscall std::basic_istringstream<char,struct std::char_traits<char>,class std::allocator<char> >::str(class std::basic_string<char,struct std::char_traits<char>,class std::allocator<char> > const &)",
         ErrorKind::InvalidBackReferenceIndex),
        ("?str@?$basic_istringstream@DU?$char_traits@D@std@@V?$allocator@D@2@@std@@QBE?AV?$basic_string@DU?$char_traits@D@std@@V?$allocator@D@2@@2@XZ",
         "public: class std::basic_string<char,struct std::char_traits<char>,class std::allocator<char> > __thiscall std::basic_istringstream<char,struct std::char_traits<char>,class std::allocator<char> >::str(void)const ",
         ErrorKind::InvalidBackReferenceIndex),
        ("?str@?$basic_istringstream@GU?$char_traits@G@std@@V?$allocator@G@2@@std@@QAEXABV?$basic_string@GU?$char_traits@G@std@@V?$allocator@G@2@@2@@Z",
         "public: void __thiscall std::basic_istringstream<unsigned short,struct std::char_traits<unsigned short>,class std::allocator<unsigned short> >::str(class std::basic_string<unsigned short,struct std::char_traits<unsigned short>,class std::allocator<unsigned short> > const &)",
         ErrorKind::InvalidBackReferenceIndex),
        ("?str@?$basic_istringstream@GU?$char_traits@G@std@@V?$allocator@G@2@@std@@QBE?AV?$basic_string@GU?$char_traits@G@std@@V?$allocator@G@2@@2@XZ",
         "public: class std::basic_string<unsigned short,struct std::char_traits<unsigned short>,class std::allocator<unsigned short> > __thiscall std::basic_istringstream<unsigned short,struct std::char_traits<unsigned short>,class std::allocator<unsigned short> >::str(void)const ",
         ErrorKind::InvalidBackReferenceIndex),
        ("?str@?$basic_ostringstream@DU?$char_traits@D@std@@V?$allocator@D@2@@std@@QAEXABV?$basic_string@DU?$char_traits@D@std@@V?$allocator@D@2@@2@@Z",
         "public: void __thiscall std::basic_ostringstream<char,struct std::char_traits<char>,class std::allocator<char> >::str(class std::basic_string<char,struct std::char_traits<char>,class std::allocator<char> > const &)",
         ErrorKind::InvalidBackReferenceIndex),
        ("?str@?$basic_ostringstream@DU?$char_traits@D@std@@V?$allocator@D@2@@std@@QBE?AV?$basic_string@DU?$char_traits@D@std@@V?$allocator@D@2@@2@XZ",
         "public: class std::basic_string<char,struct std::char_traits<char>,class std::allocator<char> > __thiscall std::basic_ostringstream<char,struct std::char_traits<char>,class std::allocator<char> >::str(void)const ",
         ErrorKind::InvalidBackReferenceIndex),
        ("?str@?$basic_ostringstream@GU?$char_traits@G@std@@V?$allocator@G@2@@std@@QAEXABV?$basic_string@GU?$char_traits@G@std@@V?$allocator@G@2@@2@@Z",
         "public: void __thiscall std::basic_ostringstream<unsigned short,struct std::char_traits<unsigned short>,class std::allocator<unsigned short> >::str(class std::basic_string<unsigned short,struct std::char_traits<unsigned short>,class std::allocator<unsigned short> > const &)",
         ErrorKind::InvalidBackReferenceIndex),
        ("?str@?$basic_ostringstream@GU?$char_traits@G@std@@V?$allocator@G@2@@std@@QBE?AV?$basic_string@GU?$char_traits@G@std@@V?$allocator@G@2@@2@XZ",
         "public: class std::basic_string<unsigned short,struct std::char_traits<unsigned short>,class std::allocator<unsigned short> > __thiscall std::basic_ostringstream<unsigned short,struct std::char_traits<unsigned short>,class std::allocator<unsigned short> >::str(void)const ",
         ErrorKind::InvalidBackReferenceIndex),
        ("?str@?$basic_stringbuf@DU?$char_traits@D@std@@V?$allocator@D@2@@std@@QAEXABV?$basic_string@DU?$char_traits@D@std@@V?$allocator@D@2@@2@@Z",
         "public: void __thiscall std::basic_stringbuf<char,struct std::char_traits<char>,class std::allocator<char> >::str(class std::basic_string<char,struct std::char_traits<char>,class std::allocator<char> > const &)",
         ErrorKind::InvalidBackReferenceIndex),
        ("?str@?$basic_stringbuf@DU?$char_traits@D@std@@V?$allocator@D@2@@std@@QBE?AV?$basic_string@DU?$char_traits@D@std@@V?$allocator@D@2@@2@XZ",
         "public: class std::basic_string<char,struct std::char_traits<char>,class std::allocator<char> > __thiscall std::basic_stringbuf<char,struct std::char_traits<char>,class std::allocator<char> >::str(void)const ",
         ErrorKind::InvalidBackReferenceIndex),
        ("?str@?$basic_stringbuf@GU?$char_traits@G@std@@V?$allocator@G@2@@std@@QAEXABV?$basic_string@GU?$char_traits@G@std@@V?$allocator@G@2@@2@@Z",
         "public: void __thiscall std::basic_stringbuf<unsigned short,struct std::char_traits<unsigned short>,class std::allocator<unsigned short> >::str(class std::basic_string<unsigned short,struct std::char_traits<unsigned short>,class std::allocator<unsigned short> > const &)",
         ErrorKind::InvalidBackReferenceIndex),
        ("?str@?$basic_stringbuf@GU?$char_traits@G@std@@V?$allocator@G@2@@std@@QBE?AV?$basic_string@GU?$char_traits@G@std@@V?$allocator@G@2@@2@XZ",
         "public: class std::basic_string<unsigned short,struct std::char_traits<unsigned short>,class std::allocator<unsigned short> > __thiscall std::basic_stringbuf<unsigned short,struct std::char_traits<unsigned short>,class std::allocator<unsigned short> >::str(void)const ",
         ErrorKind::InvalidBackReferenceIndex),
        ("?str@?$basic_stringstream@DU?$char_traits@D@std@@V?$allocator@D@2@@std@@QAEXABV?$basic_string@DU?$char_traits@D@std@@V?$allocator@D@2@@2@@Z",
         "public: void __thiscall std::basic_stringstream<char,struct std::char_traits<char>,class std::allocator<char> >::str(class std::basic_string<char,struct std::char_traits<char>,class std::allocator<char> > const &)",
         ErrorKind::InvalidBackReferenceIndex),
        ("?str@?$basic_stringstream@DU?$char_traits@D@std@@V?$allocator@D@2@@std@@QBE?AV?$basic_string@DU?$char_traits@D@std@@V?$allocator@D@2@@2@XZ",
         "public: class std::basic_string<char,struct std::char_traits<char>,class std::allocator<char> > __thiscall std::basic_stringstream<char,struct std::char_traits<char>,class std::allocator<char> >::str(void)const ",
         ErrorKind::InvalidBackReferenceIndex),
        ("?str@?$basic_stringstream@GU?$char_traits@G@std@@V?$allocator@G@2@@std@@QAEXABV?$basic_string@GU?$char_traits@G@std@@V?$allocator@G@2@@2@@Z",
         "public: void __thiscall std::basic_stringstream<unsigned short,struct std::char_traits<unsigned short>,class std::allocator<unsigned short> >::str(class std::basic_string<unsigned short,struct std::char_traits<unsigned short>,class std::allocator<unsigned short> > const &)",
         ErrorKind::InvalidBackReferenceIndex),
        ("?str@?$basic_stringstream@GU?$char_traits@G@std@@V?$allocator@G@2@@std@@QBE?AV?$basic_string@GU?$char_traits@G@std@@V?$allocator@G@2@@2@XZ",
         "public: class std::basic_string<unsigned short,struct std::char_traits<unsigned short>,class std::allocator<unsigned short> > __thiscall std::basic_stringstream<unsigned short,struct std::char_traits<unsigned short>,class std::allocator<unsigned short> >::str(void)const ",
         ErrorKind::InvalidBackReferenceIndex),
        ("?_Sync@ios_base@std@@0_NA",
         "private: static bool std::ios_base::_Sync",
         ErrorKind::UnknownFunctionClassByte),
        ("??X?$_Complex_base@M@std@@QAEAAV01@ABM@Z",
         "public: class std::_Complex_base<float> & __thiscall std::_Complex_base<float>::operator*=(float const &)",
         ErrorKind::UnknownFunctionClassByte),
        ("??Xstd@@YAAAV?$complex@M@0@AAV10@ABV10@@Z",
         "class std::complex<float> & __cdecl std::operator*=(class std::complex<float> &,class std::complex<float> const &)",
         ErrorKind::InvalidBackReferenceIndex),
        ("?aaa@@YAHBAUbbb@@@Z",
         "int __cdecl aaa(struct bbb & volatile)",
         ErrorKind::UnknownPrimitiveTypeByte),
        ("?aaa@@YAHRAUbbb@@@Z",
         "int __cdecl aaa(struct bbb * volatile)",
         ErrorKind::UnknownPrimitiveTypeByte),
        ("?aaa@@YAHSAUbbb@@@Z",
         "int __cdecl aaa(struct bbb * const volatile)",
         ErrorKind::UnknownPrimitiveTypeByte),
        ("??2?$aaa@AAUbbb@@AAUccc@@AAU2@@ddd@1eee@2@QAEHXZ",
         "public: int __thiscall eee::eee::ddd::ddd::aaa<struct bbb &,struct ccc &,struct ccc &>::operator new(void)",
         ErrorKind::UnknownFunctionClassByte),
        ("?pSW@@3P6GHKPAX0PAU_tagSTACKFRAME@@0P6GH0K0KPAK@ZP6GPAX0K@ZP6GK0K@ZP6GK00PAU_tagADDRESS@@@Z@ZA",
         "int (__stdcall* pSW)(unsigned long,void *,void *,struct _tagSTACKFRAME *,void *,int (__stdcall*)(void *,unsigned long,void *,unsigned long,unsigned long *),void * (__stdcall*)(void *,unsigned long),unsigned long (__stdcall*)(void *,unsigned long),unsigned long (__stdcall*)(void *,void *,struct _tagADDRESS *))",
         ErrorKind::UnknownPrimitiveTypeByte),
        ("?$_aaa@Vbbb@@",
         "_aaa<class bbb>",
         ErrorKind::UnexpectedEndOfInput),
        ("?$aaa@Vbbb@ccc@@Vddd@2@",
         "aaa<class ccc::bbb,class ccc::ddd>",
         ErrorKind::UnknownCallingConventionByte),
        ("??0?$Foo@P6GHPAX0@Z@@QAE@PAD@Z",
         "Foo<int (__stdcall*)(void *,void *)>::Foo<int (__stdcall*)(void *,void *)>(char *)",
         ErrorKind::UnknownPrimitiveTypeByte),
        ("??0?$Foo@P6GHPAX0@Z@@QAE@PAD@Z",
         "__thiscall Foo<int (__stdcall*)(void *,void *)>::Foo<int (__stdcall*)(void *,void *)>(char *)",
         ErrorKind::UnknownPrimitiveTypeByte),
        ("?Qux@Bar@@0PAP6AHPAV1@AAH1PAH@ZA",
         "Bar::Qux",
         ErrorKind::UnknownFunctionClassByte),
        ("?$AAA@$DBAB@",
         "AAA<`template-parameter257'>",
         ErrorKind::UnexpectedEndOfInput),
        ("?$AAA@?C@",
         "AAA<`template-parameter-2'>",
         ErrorKind::UnexpectedEndOfInput),
        ("?$AAA@PAUBBB@@",
         "AAA<struct BBB *>",
         ErrorKind::UnexpectedEndOfInput),
        ("??0?$Foo@U?$vector_c@H$00$01$0?1$0A@$0A@$0HPPPPPPP@$0HPPPPPPP@$0HPPPPPPP@$0HPPPPPPP@$0HPPPPPPP@$0HPPPPPPP@$0HPPPPPPP@$0HPPPPPPP@$0HPPPPPPP@$0HPPPPPPP@$0HPPPPPPP@$0HPPPPPPP@$0HPPPPPPP@$0HPPPPPPP@$0HPPPPPPP@@mpl@boost@@@@QAE@XZ",
         "Foo<struct boost::mpl::vector_c<int,1,2,-2,0,0,2147483647,2147483647,2147483647,2147483647,2147483647,2147483647,2147483647,2147483647,2147483647,2147483647,2147483647,2147483647,2147483647,2147483647,2147483647> >::Foo<struct boost::mpl::vector_c<int,1,2,-2,0,0,2147483647,2147483647,2147483647,2147483647,2147483647,2147483647,2147483647,2147483647,2147483647,2147483647,2147483647,2147483647,2147483647,2147483647,2147483647> >(void)",
         ErrorKind::UnknownPrimitiveTypeByte),
        ("??Xstd@@YAAEAV?$complex@M@0@AEAV10@AEBV10@@Z",
         "class std::complex<float> & __ptr64 __cdecl std::operator*=(class std::complex<float> & __ptr64,class std::complex<float> const & __ptr64)",
         ErrorKind::InvalidBackReferenceIndex),
        ("??$?DM@std@@YA?AV?$complex@M@0@ABMABV10@@Z",
         "class std::complex<float> __cdecl std::operator*<float>(float const &,class std::complex<float> const &)",
         ErrorKind::UnknownPrimitiveTypeByte),
        ("?_R2@?BN@???$_Fabs@N@std@@YANAEBV?$complex@N@1@PEAH@Z@4NB",
         "double const `double __cdecl std::_Fabs<double>(class std::complex<double> const & __ptr64,int * __ptr64)'::`29'::_R2",
         ErrorKind::UnknownOperatorCode),
        ("?vtordisp_thunk@std@@$4PPPPPPPM@3EAA_NXZ",
         "[thunk]:public: virtual bool __cdecl std::vtordisp_thunk`vtordisp{4294967292,4}' (void) __ptr64",
         ErrorKind::UnknownFunctionClassByte),
        ("??_9CView@@$BBII@AE",
         "[thunk]: __thiscall CView::`vcall'{392,{flat}}' }'",
         ErrorKind::UnknownOperatorCode),
        ("?_dispatch@_impl_Engine@SalomeApp@@$R4CE@BA@PPPPPPPM@7AE_NAAVomniCallHandle@@@Z",
         "[thunk]:public: virtual bool __thiscall SalomeApp::_impl_Engine::_dispatch`vtordispex{36,16,4294967292,8}' (class omniCallHandle &)",
         ErrorKind::UnknownFunctionClassByte),
        ("??Xstd@@YAAEAV?$complex@M@0@AEAV10@AEBV10@@Z",
         "class std::complex<float> & ptr64 cdecl std::operator*=(class std::complex<float> & ptr64,class std::complex<float> const & ptr64)",
         ErrorKind::InvalidBackReferenceIndex),
        ("??Xstd@@YAAEAV?$complex@M@0@AEAV10@AEBV10@@Z",
         "class std::complex<float> & std::operator*=(class std::complex<float> &,class std::complex<float> const &)",
         ErrorKind::InvalidBackReferenceIndex),
        ("??$run@XVTask_Render_Preview@@@QtConcurrent@@YA?AV?$QFuture@X@@PEAVTask_Render_Preview@@P82@EAAXXZ@Z",
         "class QFuture<void> __cdecl QtConcurrent::run<void,class Task_Render_Preview>(class Task_Render_Preview * __ptr64,void (__cdecl Task_Render_Preview::*)(void) __ptr64)",
         ErrorKind::UnknownPrimitiveTypeByte),
        ("??_E?$TStrArray@$$BY0BAA@D$0BA@@@UAEPAXI@Z",
         "public: virtual void * __thiscall TStrArray<char [256],16>::`vector deleting destructor'(unsigned int)",
         ErrorKind::UnknownOperatorCode),
    ];
    for (mangled, reference) in exact {
        assert_eq!(demangle(mangled).unwrap(), reference);
    }
    for (mangled, reference, decoded) in printed {
        assert_eq!(demangle(mangled).unwrap(), decoded);
        assert_ne!(decoded, reference);
    }
    for (mangled, _reference, kind) in failing {
        assert_eq!(demangle(mangled).unwrap_err().kind, kind);
    }
}
